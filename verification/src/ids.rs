//! Identifiers: random ones and those derived from them.
use crate::api::StreamInit;
use vstd::prelude::*;
use vstd::string::*;

verus! {

/// Whether the bits of a UUID mark it as a random one: version 4, and the variant
/// whose leading bits are 10.
pub open spec fn is_random_uuid(uuid: u128) -> bool {
    (uuid >> 76u128) & 0xf == 4 && (uuid >> 62u128) & 0x3 == 2
}

/// The hexadecimal digit with the given number, counted from the most significant
/// of the 32 digits of a UUID.
pub open spec fn hex_digit(uuid: u128, index: int) -> u128 {
    (uuid >> ((4 * (31 - index)) as u128)) & 0xf
}

/// The lower-case character of a hexadecimal digit.
pub open spec fn hex_char(digit: u128) -> char {
    if digit < 10 {
        ('0' as u32 + digit) as char
    } else {
        ('a' as u32 + (digit - 10)) as char
    }
}

/// The usual text of a UUID: 32 lower-case hexadecimal digits in groups of 8, 4, 4,
/// 4 and 12, with hyphens between the groups.
pub open spec fn hyphenated(uuid: u128) -> Seq<char> {
    Seq::new(
        36,
        |i: int|
            if i < 8 {
                hex_char(hex_digit(uuid, i))
            } else if i == 8 || i == 13 || i == 18 || i == 23 {
                '-'
            } else if i < 13 {
                hex_char(hex_digit(uuid, i - 1))
            } else if i < 18 {
                hex_char(hex_digit(uuid, i - 2))
            } else if i < 23 {
                hex_char(hex_digit(uuid, i - 3))
            } else {
                hex_char(hex_digit(uuid, i - 4))
            },
    )
}

/// Draws a UUID with `uuid::Uuid::new_v4`, as its big-endian 128-bit value. Nothing
/// is claimed of the draw but the bits that mark it as random. The call panics where
/// the system has no source of randomness.
#[verifier::external_body]
pub(crate) fn random_uuid() -> (uuid: u128)
    ensures
        is_random_uuid(uuid),
{
    uuid::Uuid::new_v4().as_u128()
}

/// Writes a UUID with the `Display` of `uuid::Uuid`, which gives the hyphenated
/// lower-case form.
#[verifier::external_body]
pub(crate) fn uuid_text(uuid: u128) -> (text: String)
    ensures
        text@ == hyphenated(uuid),
{
    uuid::Uuid::from_u128(uuid).to_string()
}

/// Different digits have different characters.
proof fn lemma_hex_char_injective(a: u128, b: u128)
    requires
        a < 16,
        b < 16,
        hex_char(a) == hex_char(b),
    ensures
        a == b,
{
}

/// A digit is less than sixteen.
proof fn lemma_hex_digit_range(uuid: u128, index: int)
    ensures
        hex_digit(uuid, index) < 16,
{
    let shifted = uuid >> ((4 * (31 - index)) as u128);
    assert(shifted & 0xf < 16) by (bit_vector);
}

/// Different UUIDs have different texts.
pub proof fn uuid_texts_differ(a: u128, b: u128)
    requires
        a != b,
    ensures
        hyphenated(a) != hyphenated(b),
{
    if hyphenated(a) == hyphenated(b) {
        assert forall|k: int| 0 <= k < 32 implies #[trigger] hex_digit(a, k) == hex_digit(b, k) by {
            let i = if k < 8 {
                k
            } else if k < 12 {
                k + 1
            } else if k < 16 {
                k + 2
            } else if k < 20 {
                k + 3
            } else {
                k + 4
            };
            assert(hyphenated(a)[i] == hyphenated(b)[i]);
            lemma_hex_digit_range(a, k);
            lemma_hex_digit_range(b, k);
            lemma_hex_char_injective(hex_digit(a, k), hex_digit(b, k));
        }
        assert(hex_digit(a, 0) == hex_digit(b, 0) && hex_digit(a, 1) == hex_digit(b, 1));
        assert(hex_digit(a, 2) == hex_digit(b, 2) && hex_digit(a, 3) == hex_digit(b, 3));
        assert(hex_digit(a, 4) == hex_digit(b, 4) && hex_digit(a, 5) == hex_digit(b, 5));
        assert(hex_digit(a, 6) == hex_digit(b, 6) && hex_digit(a, 7) == hex_digit(b, 7));
        assert(hex_digit(a, 8) == hex_digit(b, 8) && hex_digit(a, 9) == hex_digit(b, 9));
        assert(hex_digit(a, 10) == hex_digit(b, 10) && hex_digit(a, 11) == hex_digit(b, 11));
        assert(hex_digit(a, 12) == hex_digit(b, 12) && hex_digit(a, 13) == hex_digit(b, 13));
        assert(hex_digit(a, 14) == hex_digit(b, 14) && hex_digit(a, 15) == hex_digit(b, 15));
        assert(hex_digit(a, 16) == hex_digit(b, 16) && hex_digit(a, 17) == hex_digit(b, 17));
        assert(hex_digit(a, 18) == hex_digit(b, 18) && hex_digit(a, 19) == hex_digit(b, 19));
        assert(hex_digit(a, 20) == hex_digit(b, 20) && hex_digit(a, 21) == hex_digit(b, 21));
        assert(hex_digit(a, 22) == hex_digit(b, 22) && hex_digit(a, 23) == hex_digit(b, 23));
        assert(hex_digit(a, 24) == hex_digit(b, 24) && hex_digit(a, 25) == hex_digit(b, 25));
        assert(hex_digit(a, 26) == hex_digit(b, 26) && hex_digit(a, 27) == hex_digit(b, 27));
        assert(hex_digit(a, 28) == hex_digit(b, 28) && hex_digit(a, 29) == hex_digit(b, 29));
        assert(hex_digit(a, 30) == hex_digit(b, 30) && hex_digit(a, 31) == hex_digit(b, 31));
        assert(a == b) by (bit_vector)
            requires
                (a >> 124u128) & 0xf == (b >> 124u128) & 0xf,
                (a >> 120u128) & 0xf == (b >> 120u128) & 0xf,
                (a >> 116u128) & 0xf == (b >> 116u128) & 0xf,
                (a >> 112u128) & 0xf == (b >> 112u128) & 0xf,
                (a >> 108u128) & 0xf == (b >> 108u128) & 0xf,
                (a >> 104u128) & 0xf == (b >> 104u128) & 0xf,
                (a >> 100u128) & 0xf == (b >> 100u128) & 0xf,
                (a >> 96u128) & 0xf == (b >> 96u128) & 0xf,
                (a >> 92u128) & 0xf == (b >> 92u128) & 0xf,
                (a >> 88u128) & 0xf == (b >> 88u128) & 0xf,
                (a >> 84u128) & 0xf == (b >> 84u128) & 0xf,
                (a >> 80u128) & 0xf == (b >> 80u128) & 0xf,
                (a >> 76u128) & 0xf == (b >> 76u128) & 0xf,
                (a >> 72u128) & 0xf == (b >> 72u128) & 0xf,
                (a >> 68u128) & 0xf == (b >> 68u128) & 0xf,
                (a >> 64u128) & 0xf == (b >> 64u128) & 0xf,
                (a >> 60u128) & 0xf == (b >> 60u128) & 0xf,
                (a >> 56u128) & 0xf == (b >> 56u128) & 0xf,
                (a >> 52u128) & 0xf == (b >> 52u128) & 0xf,
                (a >> 48u128) & 0xf == (b >> 48u128) & 0xf,
                (a >> 44u128) & 0xf == (b >> 44u128) & 0xf,
                (a >> 40u128) & 0xf == (b >> 40u128) & 0xf,
                (a >> 36u128) & 0xf == (b >> 36u128) & 0xf,
                (a >> 32u128) & 0xf == (b >> 32u128) & 0xf,
                (a >> 28u128) & 0xf == (b >> 28u128) & 0xf,
                (a >> 24u128) & 0xf == (b >> 24u128) & 0xf,
                (a >> 20u128) & 0xf == (b >> 20u128) & 0xf,
                (a >> 16u128) & 0xf == (b >> 16u128) & 0xf,
                (a >> 12u128) & 0xf == (b >> 12u128) & 0xf,
                (a >> 8u128) & 0xf == (b >> 8u128) & 0xf,
                (a >> 4u128) & 0xf == (b >> 4u128) & 0xf,
                (a >> 0u128) & 0xf == (b >> 0u128) & 0xf,
        ;
    }
}

/// The identifier of one attempt at a request.
#[derive(Clone, Copy, Debug, PartialEq, Eq, Hash, Structural)]
pub struct RequestId(pub u128);

/// The identifier of a response stream, which stays the same over its attempts.
#[derive(Clone, Debug, PartialEq, Eq, Hash)]
pub struct ResponseStreamId(pub String);

impl View for ResponseStreamId {
    type V = Seq<char>;

    open spec fn view(&self) -> Seq<char> {
        self.0@
    }
}

/// The identifier of the stream that one viewing of a shared session replays: the
/// request and the viewing.
pub open spec fn shared_session_id(request_id: Seq<char>, viewing: u128) -> Seq<char> {
    request_id + "-"@ + hyphenated(viewing)
}

impl ResponseStreamId {
    /// The identifier of a stream that replays a shared session, made unique per
    /// viewing by a fresh UUID, so that replays of one conversation do not collide.
    pub fn for_shared_session(init_event: &StreamInit) -> (id: Self)
        ensures
            exists|viewing: u128|
                is_random_uuid(viewing) && id@ == #[trigger] shared_session_id(
                    init_event.request_id@,
                    viewing,
                ),
    {
        Self::for_viewing(init_event, random_uuid())
    }

    /// The identifier of the stream that the given viewing of a shared session
    /// replays.
    pub fn for_viewing(init_event: &StreamInit, viewing: u128) -> (id: Self)
        ensures
            id@ == shared_session_id(init_event.request_id@, viewing),
    {
        let mut text = init_event.request_id.clone();
        text.append("-");
        text.append(uuid_text(viewing).as_str());
        ResponseStreamId(text)
    }

    /// The identifier made of the given UUID.
    pub fn from_uuid(uuid: u128) -> (id: Self)
        ensures
            id@ == hyphenated(uuid),
    {
        ResponseStreamId(uuid_text(uuid))
    }

    /// A fresh identifier.
    pub fn new_for_test() -> (id: Self)
        ensures
            exists|uuid: u128| is_random_uuid(uuid) && id@ == #[trigger] hyphenated(uuid),
    {
        Self::from_uuid(random_uuid())
    }
}

/// Two viewings of one session with different UUIDs have different stream
/// identifiers.
pub proof fn viewings_do_not_collide(request_id: Seq<char>, first: u128, second: u128)
    requires
        first != second,
    ensures
        shared_session_id(request_id, first) != shared_session_id(request_id, second),
{
    uuid_texts_differ(first, second);
    let prefix = request_id + "-"@;
    let a = shared_session_id(request_id, first);
    let b = shared_session_id(request_id, second);
    assert(a.skip(prefix.len() as int) =~= hyphenated(first));
    assert(b.skip(prefix.len() as int) =~= hyphenated(second));
}

/// The identifier of a viewing starts with the request that is replayed, and goes on
/// with a hyphen and the viewing's own text.
pub proof fn viewings_name_their_request(request_id: Seq<char>, viewing: u128)
    ensures
        ({
            let id = shared_session_id(request_id, viewing);
            let n = request_id.len() as int;
            &&& id.len() == n + 37
            &&& id.take(n) == request_id
            &&& id[n] == '-'
            &&& id.skip(n + 1) == hyphenated(viewing)
        }),
{
    reveal_strlit("-");
    let id = shared_session_id(request_id, viewing);
    let n = request_id.len() as int;
    assert(id.take(n) =~= request_id);
    assert(id.skip(n + 1) =~= hyphenated(viewing));
}

/// A random UUID is told by the digit of its version and the two leading bits of its
/// variant.
pub proof fn random_uuids_are_marked(uuid: u128)
    ensures
        is_random_uuid(uuid) <==> (uuid >> 76u128) & 0xf == 4 && (uuid >> 62u128) & 0x3 == 2,
{
}

} // verus!
