//! The canonical byte encoding of an entity sequence.
//!
//! A sequence is written as its length followed by its entities in order. An
//! entity is written as its three texts followed by its position. A text is
//! written as the length of its UTF-8 form followed by that form. Every
//! length and the position are eight bytes, least significant first.

use vstd::prelude::*;
use vstd::bytes::{
    lemma_auto_spec_u64_to_from_le_bytes, spec_u64_from_le_bytes, spec_u64_to_le_bytes,
    u64_from_le_bytes, u64_to_le_bytes,
};
use vstd::slice::slice_subrange;
use vstd::utf8::{
    decode_utf8, decode_utf8_encode_utf8, encode_utf8, encode_utf8_decode_utf8,
    encode_utf8_valid_utf8, valid_utf8,
};
use vstd::string::StringSliceAdditionalSpecFns;
use crate::vault::entity::{Entity, EntityView};

verus! {

/// A text can be encoded when the length of its UTF-8 form fits in 64 bits.
pub open spec fn text_encodable(text: Seq<char>) -> bool {
    encode_utf8(text).len() <= u64::MAX
}

/// An entity can be encoded when each of its texts can.
pub open spec fn entity_encodable(entity: EntityView) -> bool {
    &&& text_encodable(entity.original)
    &&& text_encodable(entity.token)
    &&& text_encodable(entity.entity_type)
}

/// A sequence can be encoded when its length fits in 64 bits and each of
/// its entities can be encoded. Every sequence that fits in memory can.
pub open spec fn encodable(entities: Seq<EntityView>) -> bool {
    &&& entities.len() <= u64::MAX
    &&& forall|i: int| 0 <= i < entities.len() ==> entity_encodable(#[trigger] entities[i])
}

/// The encoding of a text.
pub open spec fn encode_text(text: Seq<char>) -> Seq<u8> {
    spec_u64_to_le_bytes(encode_utf8(text).len() as u64) + encode_utf8(text)
}

/// The encoding of one entity.
pub open spec fn encode_entity(entity: EntityView) -> Seq<u8> {
    encode_text(entity.original) + encode_text(entity.token) + encode_text(entity.entity_type)
        + spec_u64_to_le_bytes(entity.position as u64)
}

/// The encodings of the entities, one after the other.
pub open spec fn encode_each(entities: Seq<EntityView>) -> Seq<u8>
    decreases entities.len(),
{
    if entities.len() == 0 {
        Seq::empty()
    } else {
        encode_each(entities.drop_last()) + encode_entity(entities.last())
    }
}

/// The encoding of an entity sequence.
pub open spec fn encode_spec(entities: Seq<EntityView>) -> Seq<u8> {
    spec_u64_to_le_bytes(entities.len() as u64) + encode_each(entities)
}

/// Appends the encoding of `text` to `out`.
fn put_text(out: &mut Vec<u8>, text: &str)
    ensures
        final(out)@ == old(out)@ + encode_text(text@),
        text_encodable(text@),
{
    let raw = text.as_bytes();
    let mut prefix = u64_to_le_bytes(raw.len() as u64);
    out.append(&mut prefix);
    out.extend_from_slice(raw);
    assert(out@ =~= old(out)@ + encode_text(text@));
}

/// Appends the encoding of `entity` to `out`.
fn put_entity(out: &mut Vec<u8>, entity: &Entity)
    ensures
        final(out)@ == old(out)@ + encode_entity(entity@),
        entity_encodable(entity@),
{
    put_text(out, entity.original.as_str());
    put_text(out, entity.token.as_str());
    put_text(out, entity.entity_type.as_str());
    let mut position = u64_to_le_bytes(entity.position as u64);
    out.append(&mut position);
    assert(out@ =~= old(out)@ + encode_entity(entity@));
}

/// Encodes an entity sequence. Every sequence has an encoding.
pub fn encode_entities(entities: &Vec<Entity>) -> (bytes: Vec<u8>)
    ensures
        bytes@ == encode_spec(entities.deep_view()),
        encodable(entities.deep_view()),
{
    let ghost all = entities.deep_view();
    let mut out = u64_to_le_bytes(entities.len() as u64);
    let mut i: usize = 0;
    while i < entities.len()
        invariant
            i <= entities.len(),
            all == entities.deep_view(),
            out@ == spec_u64_to_le_bytes(entities.len() as u64) + encode_each(all.take(i as int)),
            forall|j: int| 0 <= j < i ==> entity_encodable(#[trigger] all[j]),
        decreases entities.len() - i,
    {
        put_entity(&mut out, &entities[i]);
        proof {
            let grown = all.take(i + 1);
            assert(grown.drop_last() =~= all.take(i as int));
            assert(grown.last() == entities[i as int]@);
            assert(out@ =~= spec_u64_to_le_bytes(entities.len() as u64) + encode_each(grown));
        }
        i += 1;
    }
    assert(all.take(i as int) =~= all);
    out
}

/// The entity sequence that `bytes` encodes, if there is one.
pub open spec fn decode_spec(bytes: Seq<u8>) -> Option<Seq<EntityView>> {
    if exists|entities: Seq<EntityView>| encodes(entities, bytes) {
        Some(choose|entities: Seq<EntityView>| encodes(entities, bytes))
    } else {
        None
    }
}

/// `bytes` is the encoding of `entities`.
pub open spec fn encodes(entities: Seq<EntityView>, bytes: Seq<u8>) -> bool {
    encodable(entities) && encode_spec(entities) == bytes
}

/// `piece` stands in `bytes` from position `pos` on.
spec fn holds_at(bytes: Seq<u8>, pos: int, piece: Seq<u8>) -> bool {
    0 <= pos && pos + piece.len() <= bytes.len() && bytes.subrange(pos, pos + piece.len()) == piece
}

proof fn lemma_holds_at_concat(bytes: Seq<u8>, pos: int, a: Seq<u8>, b: Seq<u8>)
    ensures
        holds_at(bytes, pos, a + b) <==> holds_at(bytes, pos, a) && holds_at(bytes, pos + a.len(), b),
{
    if 0 <= pos && pos + a.len() + b.len() <= bytes.len() {
        let whole = bytes.subrange(pos, pos + a.len() + b.len());
        if holds_at(bytes, pos, a + b) {
            assert(bytes.subrange(pos, pos + a.len()) =~= (a + b).subrange(0, a.len() as int));
            assert((a + b).subrange(0, a.len() as int) =~= a);
            assert(bytes.subrange(pos + a.len(), pos + a.len() + b.len()) =~= (a + b).subrange(
                a.len() as int,
                (a + b).len() as int,
            ));
            assert((a + b).subrange(a.len() as int, (a + b).len() as int) =~= b);
        }
        if holds_at(bytes, pos, a) && holds_at(bytes, pos + a.len(), b) {
            assert(whole =~= bytes.subrange(pos, pos + a.len()) + bytes.subrange(
                pos + a.len(),
                pos + a.len() + b.len(),
            ));
        }
    }
}

/// Reads eight bytes at `pos` as a number; yields it and the position behind it.
spec fn parse_u64(bytes: Seq<u8>, pos: int) -> Option<(u64, int)> {
    if 0 <= pos && pos + 8 <= bytes.len() {
        Some((spec_u64_from_le_bytes(bytes.subrange(pos, pos + 8)), pos + 8))
    } else {
        None
    }
}

/// Reads a text at `pos`; yields it and the position behind it.
spec fn parse_text(bytes: Seq<u8>, pos: int) -> Option<(Seq<char>, int)> {
    match parse_u64(bytes, pos) {
        Some((len, body)) => {
            if body + len <= bytes.len() && valid_utf8(bytes.subrange(body, body + len)) {
                Some((decode_utf8(bytes.subrange(body, body + len)), body + len))
            } else {
                None
            }
        },
        None => None,
    }
}

/// Reads an entity at `pos`; yields it and the position behind it.
spec fn parse_entity(bytes: Seq<u8>, pos: int) -> Option<(EntityView, int)> {
    match parse_text(bytes, pos) {
        Some((original, after_original)) => match parse_text(bytes, after_original) {
            Some((token, after_token)) => match parse_text(bytes, after_token) {
                Some((entity_type, after_type)) => match parse_u64(bytes, after_type) {
                    Some((position, end)) => {
                        if position <= usize::MAX {
                            Some(
                                (
                                    EntityView {
                                        original,
                                        token,
                                        entity_type,
                                        position: position as usize,
                                    },
                                    end,
                                ),
                            )
                        } else {
                            None
                        }
                    },
                    None => None,
                },
                None => None,
            },
            None => None,
        },
        None => None,
    }
}

/// Reads `n` entities from `start` on; yields them and the position behind
/// the last.
spec fn parse_each(bytes: Seq<u8>, start: int, n: nat) -> Option<(Seq<EntityView>, int)>
    decreases n,
{
    if n == 0 {
        Some((Seq::empty(), start))
    } else {
        match parse_each(bytes, start, (n - 1) as nat) {
            Some((entities, pos)) => match parse_entity(bytes, pos) {
                Some((entity, end)) => Some((entities.push(entity), end)),
                None => None,
            },
            None => None,
        }
    }
}

/// Reads a whole encoding: the length, that many entities, and nothing more.
spec fn parse_spec(bytes: Seq<u8>) -> Option<Seq<EntityView>> {
    match parse_u64(bytes, 0) {
        Some((n, start)) => match parse_each(bytes, start, n as nat) {
            Some((entities, end)) => if end == bytes.len() {
                Some(entities)
            } else {
                None
            },
            None => None,
        },
        None => None,
    }
}

proof fn lemma_u64_sound(bytes: Seq<u8>, pos: int)
    requires
        parse_u64(bytes, pos) is Some,
    ensures
        holds_at(bytes, pos, spec_u64_to_le_bytes(parse_u64(bytes, pos)->Some_0.0)),
        parse_u64(bytes, pos)->Some_0.1 == pos + 8,
{
    lemma_auto_spec_u64_to_from_le_bytes();
    let raw = bytes.subrange(pos, pos + 8);
    assert(spec_u64_to_le_bytes(spec_u64_from_le_bytes(raw)) == raw);
}

proof fn lemma_u64_complete(bytes: Seq<u8>, pos: int, value: u64)
    requires
        holds_at(bytes, pos, spec_u64_to_le_bytes(value)),
    ensures
        parse_u64(bytes, pos) == Some((value, pos + 8)),
{
    lemma_auto_spec_u64_to_from_le_bytes();
    assert(spec_u64_to_le_bytes(value).len() == 8);
}

proof fn lemma_text_sound(bytes: Seq<u8>, pos: int)
    requires
        parse_text(bytes, pos) is Some,
    ensures
        text_encodable(parse_text(bytes, pos)->Some_0.0),
        holds_at(bytes, pos, encode_text(parse_text(bytes, pos)->Some_0.0)),
        parse_text(bytes, pos)->Some_0.1 == pos + encode_text(parse_text(bytes, pos)->Some_0.0).len(),
{
    lemma_auto_spec_u64_to_from_le_bytes();
    lemma_u64_sound(bytes, pos);
    let (len, body) = parse_u64(bytes, pos)->Some_0;
    let raw = bytes.subrange(body, body + len);
    let text = decode_utf8(raw);
    decode_utf8_encode_utf8(raw);
    assert(encode_utf8(text) == raw);
    assert(encode_utf8(text).len() as u64 == len);
    assert(holds_at(bytes, pos + 8, raw));
    lemma_holds_at_concat(bytes, pos, spec_u64_to_le_bytes(len), raw);
}

proof fn lemma_text_complete(bytes: Seq<u8>, pos: int, text: Seq<char>)
    requires
        text_encodable(text),
        holds_at(bytes, pos, encode_text(text)),
    ensures
        parse_text(bytes, pos) == Some((text, pos + encode_text(text).len())),
{
    lemma_auto_spec_u64_to_from_le_bytes();
    let raw = encode_utf8(text);
    let len = raw.len() as u64;
    lemma_holds_at_concat(bytes, pos, spec_u64_to_le_bytes(len), raw);
    lemma_u64_complete(bytes, pos, len);
    encode_utf8_valid_utf8(text);
    encode_utf8_decode_utf8(text);
    assert(bytes.subrange(pos + 8, pos + 8 + len) == raw);
}

proof fn lemma_entity_sound(bytes: Seq<u8>, pos: int)
    requires
        parse_entity(bytes, pos) is Some,
    ensures
        entity_encodable(parse_entity(bytes, pos)->Some_0.0),
        holds_at(bytes, pos, encode_entity(parse_entity(bytes, pos)->Some_0.0)),
        parse_entity(bytes, pos)->Some_0.1 == pos + encode_entity(
            parse_entity(bytes, pos)->Some_0.0,
        ).len(),
{
    let (original, after_original) = parse_text(bytes, pos)->Some_0;
    let (token, after_token) = parse_text(bytes, after_original)->Some_0;
    let (entity_type, after_type) = parse_text(bytes, after_token)->Some_0;
    let (position, end) = parse_u64(bytes, after_type)->Some_0;
    lemma_text_sound(bytes, pos);
    lemma_text_sound(bytes, after_original);
    lemma_text_sound(bytes, after_token);
    lemma_u64_sound(bytes, after_type);
    let a = encode_text(original);
    let b = encode_text(token);
    let c = encode_text(entity_type);
    let d = spec_u64_to_le_bytes(position);
    lemma_auto_spec_u64_to_from_le_bytes();
    assert(d.len() == 8);
    assert((position as usize) as u64 == position);
    lemma_holds_at_concat(bytes, pos, a, b);
    lemma_holds_at_concat(bytes, pos, a + b, c);
    lemma_holds_at_concat(bytes, pos, a + b + c, d);
}

proof fn lemma_entity_complete(bytes: Seq<u8>, pos: int, entity: EntityView)
    requires
        entity_encodable(entity),
        holds_at(bytes, pos, encode_entity(entity)),
    ensures
        parse_entity(bytes, pos) == Some((entity, pos + encode_entity(entity).len())),
{
    let a = encode_text(entity.original);
    let b = encode_text(entity.token);
    let c = encode_text(entity.entity_type);
    let d = spec_u64_to_le_bytes(entity.position as u64);
    lemma_auto_spec_u64_to_from_le_bytes();
    assert(d.len() == 8);
    lemma_holds_at_concat(bytes, pos, a + b + c, d);
    lemma_holds_at_concat(bytes, pos, a + b, c);
    lemma_holds_at_concat(bytes, pos, a, b);
    lemma_text_complete(bytes, pos, entity.original);
    lemma_text_complete(bytes, pos + a.len(), entity.token);
    lemma_text_complete(bytes, pos + a.len() + b.len(), entity.entity_type);
    lemma_u64_complete(bytes, pos + a.len() + b.len() + c.len(), entity.position as u64);
    assert((entity.position as u64) as usize == entity.position);
}

proof fn lemma_each_sound(bytes: Seq<u8>, start: int, n: nat)
    requires
        0 <= start <= bytes.len(),
        parse_each(bytes, start, n) is Some,
    ensures
        parse_each(bytes, start, n)->Some_0.0.len() == n,
        forall|i: int|
            0 <= i < n ==> entity_encodable(#[trigger] parse_each(bytes, start, n)->Some_0.0[i]),
        holds_at(bytes, start, encode_each(parse_each(bytes, start, n)->Some_0.0)),
        parse_each(bytes, start, n)->Some_0.1 == start + encode_each(
            parse_each(bytes, start, n)->Some_0.0,
        ).len(),
    decreases n,
{
    if n == 0 {
        assert(bytes.subrange(start, start) =~= Seq::<u8>::empty());
    } else {
        let (entities, pos) = parse_each(bytes, start, (n - 1) as nat)->Some_0;
        let (entity, end) = parse_entity(bytes, pos)->Some_0;
        lemma_each_sound(bytes, start, (n - 1) as nat);
        lemma_entity_sound(bytes, pos);
        let grown = entities.push(entity);
        assert(grown.drop_last() =~= entities);
        lemma_holds_at_concat(bytes, start, encode_each(entities), encode_entity(entity));
    }
}

proof fn lemma_each_complete(bytes: Seq<u8>, start: int, entities: Seq<EntityView>)
    requires
        forall|i: int| 0 <= i < entities.len() ==> entity_encodable(#[trigger] entities[i]),
        holds_at(bytes, start, encode_each(entities)),
    ensures
        parse_each(bytes, start, entities.len()) == Some(
            (entities, start + encode_each(entities).len()),
        ),
    decreases entities.len(),
{
    if entities.len() > 0 {
        let front = entities.drop_last();
        lemma_holds_at_concat(bytes, start, encode_each(front), encode_entity(entities.last()));
        lemma_each_complete(bytes, start, front);
        lemma_entity_complete(bytes, start + encode_each(front).len(), entities.last());
        assert(front.push(entities.last()) =~= entities);
    }
}

proof fn lemma_each_stays_none(bytes: Seq<u8>, start: int, i: nat, n: nat)
    requires
        parse_each(bytes, start, i) is None,
        i <= n,
    ensures
        parse_each(bytes, start, n) is None,
    decreases n,
{
    if i < n {
        lemma_each_stays_none(bytes, start, i, (n - 1) as nat);
    }
}

proof fn lemma_parse_sound(bytes: Seq<u8>)
    requires
        parse_spec(bytes) is Some,
    ensures
        encodes(parse_spec(bytes)->Some_0, bytes),
{
    let (n, start) = parse_u64(bytes, 0)->Some_0;
    let (entities, end) = parse_each(bytes, start, n as nat)->Some_0;
    lemma_auto_spec_u64_to_from_le_bytes();
    lemma_u64_sound(bytes, 0);
    lemma_each_sound(bytes, start, n as nat);
    assert(spec_u64_to_le_bytes(n).len() == 8);
    assert(entities.len() as u64 == n);
    lemma_holds_at_concat(bytes, 0, spec_u64_to_le_bytes(n), encode_each(entities));
    assert(bytes.subrange(0, bytes.len() as int) =~= bytes);
}

proof fn lemma_parse_complete(entities: Seq<EntityView>)
    requires
        encodable(entities),
    ensures
        parse_spec(encode_spec(entities)) == Some(entities),
{
    lemma_auto_spec_u64_to_from_le_bytes();
    let bytes = encode_spec(entities);
    let n = entities.len() as u64;
    assert(bytes.subrange(0, bytes.len() as int) =~= bytes);
    lemma_holds_at_concat(bytes, 0, spec_u64_to_le_bytes(n), encode_each(entities));
    lemma_u64_complete(bytes, 0, n);
    lemma_each_complete(bytes, 8, entities);
}

/// Decoding is the inverse of encoding: an encodable sequence is what its
/// encoding decodes to, so no two such sequences share an encoding.
pub proof fn lemma_decode_encode(entities: Seq<EntityView>)
    requires
        encodable(entities),
    ensures
        decode_spec(encode_spec(entities)) == Some(entities),
{
    let bytes = encode_spec(entities);
    assert(encodes(entities, bytes));
    let chosen = choose|other: Seq<EntityView>| encodes(other, bytes);
    lemma_parse_complete(entities);
    lemma_parse_complete(chosen);
}

/// An encoding is never shorter than the eight bytes of its length.
pub proof fn lemma_encoding_length(entities: Seq<EntityView>)
    ensures
        encode_spec(entities).len() >= 8,
{
    lemma_auto_spec_u64_to_from_le_bytes();
}

/// Whatever decodes to a sequence is the encoding of that sequence.
pub proof fn lemma_encode_decode(bytes: Seq<u8>)
    requires
        decode_spec(bytes) is Some,
    ensures
        encodable(decode_spec(bytes)->Some_0),
        encode_spec(decode_spec(bytes)->Some_0) == bytes,
{
}

proof fn lemma_parse_is_decode(bytes: Seq<u8>)
    ensures
        parse_spec(bytes) == decode_spec(bytes),
{
    if parse_spec(bytes) is Some {
        lemma_parse_sound(bytes);
        lemma_decode_encode(parse_spec(bytes)->Some_0);
    } else if exists|entities: Seq<EntityView>| encodes(entities, bytes) {
        let chosen = choose|entities: Seq<EntityView>| encodes(entities, bytes);
        lemma_parse_complete(chosen);
    }
}

/// `core::str::from_utf8`. Trusted: it succeeds exactly on well-formed
/// UTF-8, and the text it gives has the input as its UTF-8 form.
#[verifier::external_body]
fn text_from_utf8(raw: &[u8]) -> (r: Option<&str>)
    ensures
        r is Some <==> valid_utf8(raw@),
        r matches Some(text) ==> text.spec_bytes() == raw@,
{
    core::str::from_utf8(raw).ok()
}

fn read_u64(bytes: &[u8], pos: usize) -> (r: Option<(u64, usize)>)
    requires
        pos <= bytes.len(),
    ensures
        match r {
            Some((value, end)) => parse_u64(bytes@, pos as int) == Some((value, end as int)) && end
                <= bytes.len(),
            None => parse_u64(bytes@, pos as int) is None,
        },
{
    if bytes.len() - pos < 8 {
        return None;
    }
    let value = u64_from_le_bytes(slice_subrange(bytes, pos, pos + 8));
    Some((value, pos + 8))
}

fn read_text(bytes: &[u8], pos: usize) -> (r: Option<(String, usize)>)
    requires
        pos <= bytes.len(),
    ensures
        match r {
            Some((text, end)) => parse_text(bytes@, pos as int) == Some((text@, end as int)) && end
                <= bytes.len(),
            None => parse_text(bytes@, pos as int) is None,
        },
{
    let (len, body) = match read_u64(bytes, pos) {
        Some(header) => header,
        None => {
            return None;
        },
    };
    if len > (bytes.len() - body) as u64 {
        return None;
    }
    let end = body + len as usize;
    match text_from_utf8(slice_subrange(bytes, body, end)) {
        Some(text) => {
            proof {
                encode_utf8_decode_utf8(text@);
            }
            Some((text.to_owned(), end))
        },
        None => None,
    }
}

fn read_entity(bytes: &[u8], pos: usize) -> (r: Option<(Entity, usize)>)
    requires
        pos <= bytes.len(),
    ensures
        match r {
            Some((entity, end)) => parse_entity(bytes@, pos as int) == Some((entity@, end as int))
                && end <= bytes.len(),
            None => parse_entity(bytes@, pos as int) is None,
        },
{
    let (original, after_original) = match read_text(bytes, pos) {
        Some(field) => field,
        None => {
            return None;
        },
    };
    let (token, after_token) = match read_text(bytes, after_original) {
        Some(field) => field,
        None => {
            return None;
        },
    };
    let (entity_type, after_type) = match read_text(bytes, after_token) {
        Some(field) => field,
        None => {
            return None;
        },
    };
    let (position, end) = match read_u64(bytes, after_type) {
        Some(field) => field,
        None => {
            return None;
        },
    };
    if position > usize::MAX as u64 {
        return None;
    }
    Some((Entity { original, token, entity_type, position: position as usize }, end))
}

/// Decodes an entity sequence: succeeds exactly on the encodings of entity
/// sequences, and then gives the sequence that was encoded.
pub fn decode_entities(bytes: &[u8]) -> (r: Option<Vec<Entity>>)
    ensures
        match r {
            Some(entities) => decode_spec(bytes@) == Some(entities.deep_view()),
            None => decode_spec(bytes@) is None,
        },
{
    proof {
        lemma_parse_is_decode(bytes@);
    }
    let (count, start) = match read_u64(bytes, 0) {
        Some(header) => header,
        None => {
            return None;
        },
    };
    let mut entities: Vec<Entity> = Vec::new();
    let mut pos: usize = start;
    let mut i: u64 = 0;
    while i < count
        invariant
            i <= count,
            pos <= bytes.len(),
            parse_spec(bytes@) == decode_spec(bytes@),
            parse_u64(bytes@, 0) == Some((count, start as int)),
            parse_each(bytes@, start as int, i as nat) == Some((entities.deep_view(), pos as int)),
        decreases count - i,
    {
        let ghost before = entities.deep_view();
        match read_entity(bytes, pos) {
            Some((entity, end)) => {
                entities.push(entity);
                pos = end;
                assert(entities.deep_view() =~= before.push(entity@));
            },
            None => {
                proof {
                    lemma_each_stays_none(bytes@, start as int, (i + 1) as nat, count as nat);
                }
                return None;
            },
        }
        i += 1;
    }
    if pos != bytes.len() {
        return None;
    }
    Some(entities)
}

} // verus!
