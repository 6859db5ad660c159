//! Identifiers of tracks and playlists: UUIDs, kept as the 128-bit numbers
//! that they are.

use vstd::prelude::*;

verus! {

/// The bits of an identifier that hold its version and its variant.
pub const LAYOUT_MASK: u128 = 0x0000_0000_0000_f000_c000_0000_0000_0000;

/// What those bits are in a random identifier: version 4, variant of the
/// standard.
pub const RANDOM_LAYOUT: u128 = 0x0000_0000_0000_4000_8000_0000_0000_0000;

/// Whether `uuid` is laid out as a random identifier.
pub open spec fn is_random_layout(uuid: u128) -> bool {
    uuid & LAYOUT_MASK == RANDOM_LAYOUT
}

/// The identifier that a text stands for, as `uuid::Uuid::parse_str` reads
/// it: 32 hexadecimal digits, plain, with hyphens, in braces or as a URN.
/// Nothing where the text is none of these.
pub uninterp spec fn parsed_uuid(text: Seq<char>) -> Option<u128>;

/// Calls `uuid::Uuid::new_v4` and gives the identifier as a number, with
/// `Uuid::as_u128`. The identifier is random but for the bits of version and
/// variant, which mark it as random.
#[verifier::external_body]
pub(crate) fn random_uuid() -> (uuid: u128)
    ensures
        is_random_layout(uuid),
{
    uuid::Uuid::new_v4().as_u128()
}

/// Calls `uuid::Uuid::parse_str` on the text and gives the identifier as a
/// number, with `Uuid::as_u128`; nothing where the text does not parse.
#[verifier::external_body]
pub(crate) fn parse_uuid(text: &str) -> (uuid: Option<u128>)
    ensures
        uuid == parsed_uuid(text@),
{
    uuid::Uuid::parse_str(text).ok().map(|u| u.as_u128())
}

/// Where the identifier of a track comes from.
#[derive(Clone, Copy, Debug, PartialEq, Eq, Structural)]
pub enum Identity {
    /// The file carries the identifier in its tags.
    Known(u128),
    /// The file carried none; this one is new and is to be written into
    /// the file's tags.
    Fresh(u128),
}

impl Identity {
    pub open spec fn uuid_of(self) -> u128 {
        match self {
            Identity::Known(uuid) => uuid,
            Identity::Fresh(uuid) => uuid,
        }
    }

    pub fn uuid(self) -> (uuid: u128)
        ensures
            uuid == self.uuid_of(),
    {
        match self {
            Identity::Known(uuid) => uuid,
            Identity::Fresh(uuid) => uuid,
        }
    }
}

/// The identifier of a file, given the text of its identifier tag, if it
/// has one. A tag that reads as an identifier is kept. A file without the
/// tag, or with a tag that does not read as an identifier, gets a new random
/// identifier.
pub fn identify(tag: Option<&str>) -> (identity: Identity)
    ensures
        match tag {
            Some(text) => match parsed_uuid(text@) {
                Some(uuid) => identity == Identity::Known(uuid),
                None => identity is Fresh && is_random_layout(identity.uuid_of()),
            },
            None => identity is Fresh && is_random_layout(identity.uuid_of()),
        },
{
    match tag {
        Some(text) => match parse_uuid(text) {
            Some(uuid) => Identity::Known(uuid),
            None => Identity::Fresh(random_uuid()),
        },
        None => Identity::Fresh(random_uuid()),
    }
}

} // verus!
