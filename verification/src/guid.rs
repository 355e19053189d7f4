use crate::credit::{CreditType, CreditView, IsCredit};
use crate::date::{Date, MIN_DAYS};
use crate::media_type::{MediaKind, MediaType};
use crate::text::{decimal, push_decimal};
use std::collections::hash_map::DefaultHasher;
use std::hash::Hasher;
use vstd::bytes::{spec_u64_to_le_bytes, u64_to_le_bytes};
use vstd::prelude::*;
use vstd::std_specs::hash::DefaultHasherAdditionalSpecFns;
use vstd::utf8::encode_utf8;

verus! {

/// The identifier by which readers of a feed recognise an item.
#[derive(Debug, Clone, PartialEq, Eq)]
pub struct Guid {
    pub value: String,
    /// Whether the identifier is an address that can be visited.
    pub permalink: bool,
}

/// The byte that ends a text in the input of the hash; no text holds it.
pub const TEXT_END: u8 = 0xff;

/// What is fed to the hash for a release date: a tag, and for a date its
/// distance in days from the earliest date.
pub open spec fn release_date_writes(release_date: Option<int>) -> Seq<Seq<u8>> {
    match release_date {
        None => seq![seq![0u8]],
        Some(day) => seq![seq![1u8], spec_u64_to_le_bytes((day - MIN_DAYS) as u64)],
    }
}

/// What is fed to the hash for a media type.
pub open spec fn media_type_writes(media_type: MediaKind) -> Seq<Seq<u8>> {
    match media_type {
        MediaKind::Movie => seq![seq![0u8]],
        MediaKind::Tv => seq![seq![1u8]],
        MediaKind::Unknown(name) => seq![seq![2u8], encode_utf8(name), seq![TEXT_END]],
    }
}

/// What is fed to the hash for a credit type.
pub open spec fn credit_type_writes(credit_type: CreditType) -> Seq<Seq<u8>> {
    match credit_type {
        CreditType::Cast => seq![seq![0u8]],
        CreditType::Crew => seq![seq![1u8]],
    }
}

/// What is fed to the hash for a credit, in this order: number, title,
/// release date, media type and credit type.
pub open spec fn guid_writes(
    id: nat,
    title: Seq<char>,
    release_date: Option<int>,
    media_type: MediaKind,
    credit_type: CreditType,
) -> Seq<Seq<u8>> {
    seq![spec_u64_to_le_bytes(id as u64), encode_utf8(title), seq![TEXT_END]] + release_date_writes(
        release_date,
    ) + media_type_writes(media_type) + credit_type_writes(credit_type)
}

/// The identifier of a feed item made from the five fields: the hash of
/// `guid_writes` in decimal digits.
pub open spec fn guid_text(
    id: nat,
    title: Seq<char>,
    release_date: Option<int>,
    media_type: MediaKind,
    credit_type: CreditType,
) -> Seq<char> {
    decimal(
        DefaultHasher::spec_finish(guid_writes(id, title, release_date, media_type, credit_type)) as nat,
    )
}

/// The identifier of the feed item of a credit.
pub open spec fn guid_of(credit: CreditView) -> Seq<char> {
    guid_text(
        credit.id,
        credit.title,
        credit.release_date,
        credit.media_type,
        credit.credit_type(),
    )
}

/// The identifier depends on five fields only: credits that agree in
/// number, title, release date, media type and credit type have the same
/// identifier, whatever else they hold.
pub proof fn lemma_guid_of_five_fields(a: CreditView, b: CreditView)
    requires
        a.id == b.id,
        a.title == b.title,
        a.release_date == b.release_date,
        a.media_type == b.media_type,
        a.credit_type() == b.credit_type(),
    ensures
        guid_of(a) == guid_of(b),
{
}

fn write_byte(hasher: &mut DefaultHasher, byte: u8)
    ensures
        final(hasher)@ == old(hasher)@.push(seq![byte]),
{
    let mut bytes: Vec<u8> = Vec::new();
    bytes.push(byte);
    hasher.write(bytes.as_slice());
    assert(bytes@ =~= seq![byte]);
}

fn write_text(hasher: &mut DefaultHasher, text: &str)
    ensures
        final(hasher)@ == old(hasher)@.push(encode_utf8(text@)).push(seq![TEXT_END]),
{
    hasher.write(text.as_bytes());
    write_byte(hasher, TEXT_END);
}

fn write_u64(hasher: &mut DefaultHasher, value: u64)
    ensures
        final(hasher)@ == old(hasher)@.push(spec_u64_to_le_bytes(value)),
{
    let bytes = u64_to_le_bytes(value);
    hasher.write(bytes.as_slice());
}

fn write_release_date(hasher: &mut DefaultHasher, release_date: Option<&Date>)
    ensures
        final(hasher)@ == old(hasher)@ + release_date_writes(
            match release_date {
                Some(date) => Some(date@),
                None => None,
            },
        ),
{
    match release_date {
        None => {
            write_byte(hasher, 0);
            assert(hasher@ =~= old(hasher)@ + seq![seq![0u8]]);
        },
        Some(date) => {
            write_byte(hasher, 1);
            let days = date.num_days_from_ce();
            let offset: u64 = (days as i64 - MIN_DAYS as i64) as u64;
            write_u64(hasher, offset);
            assert(hasher@ =~= old(hasher)@ + seq![seq![1u8], spec_u64_to_le_bytes(offset)]);
        },
    }
}

fn write_media_type(hasher: &mut DefaultHasher, media_type: &MediaType)
    ensures
        final(hasher)@ == old(hasher)@ + media_type_writes(media_type@),
{
    match media_type {
        MediaType::Movie => {
            write_byte(hasher, 0);
            assert(hasher@ =~= old(hasher)@ + seq![seq![0u8]]);
        },
        MediaType::Tv => {
            write_byte(hasher, 1);
            assert(hasher@ =~= old(hasher)@ + seq![seq![1u8]]);
        },
        MediaType::Unknown(name) => {
            write_byte(hasher, 2);
            write_text(hasher, name.as_str());
            assert(hasher@ =~= old(hasher)@ + seq![seq![2u8], encode_utf8(name@), seq![TEXT_END]]);
        },
    }
}

fn write_credit_type(hasher: &mut DefaultHasher, credit_type: CreditType)
    ensures
        final(hasher)@ == old(hasher)@ + credit_type_writes(credit_type),
{
    match credit_type {
        CreditType::Cast => {
            write_byte(hasher, 0);
            assert(hasher@ =~= old(hasher)@ + seq![seq![0u8]]);
        },
        CreditType::Crew => {
            write_byte(hasher, 1);
            assert(hasher@ =~= old(hasher)@ + seq![seq![1u8]]);
        },
    }
}

/// The identifier of the feed item of `credit`: a hash of its number,
/// title, release date, media type and credit type. It is a bare
/// identifier, no address that can be visited.
pub fn credit_guid<C: IsCredit>(credit: &C) -> (guid: Guid)
    ensures
        guid.value@ == guid_of(credit.model()),
        !guid.permalink,
{
    let mut hasher = DefaultHasher::new();
    write_u64(&mut hasher, credit.id() as u64);
    write_text(&mut hasher, credit.title());
    assert(hasher@ =~= seq![
        spec_u64_to_le_bytes(credit.model().id as u64),
        encode_utf8(credit.model().title),
        seq![TEXT_END],
    ]);
    write_release_date(&mut hasher, credit.release_date());
    let media_type = credit.media_type();
    write_media_type(&mut hasher, &media_type);
    write_credit_type(&mut hasher, credit.credit_type());
    let mut value = String::new();
    push_decimal(&mut value, hasher.finish());
    assert(value@ =~= guid_of(credit.model()));
    Guid { value, permalink: false }
}

} // verus!
