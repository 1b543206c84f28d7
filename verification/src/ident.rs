//! The text form of ids: numbers of 128 bits written in base 62.

use crate::catalog::CatalogId;
use librespot_core::spotify_id::{SpotifyAudioType, SpotifyId};
use vstd::prelude::*;

verus! {

/// The number of digits of an id written out in full.
pub const ID_TEXT_LEN: usize = 22;

/// The value of a base-62 digit: `0-9`, then `a-z`, then `A-Z`.
pub open spec fn digit_value(c: char) -> Option<int> {
    if '0' <= c <= '9' {
        Some(c as int - '0' as int)
    } else if 'a' <= c <= 'z' {
        Some(c as int - 'a' as int + 10)
    } else if 'A' <= c <= 'Z' {
        Some(c as int - 'A' as int + 36)
    } else {
        None
    }
}

/// The number that `text` writes in base 62, first digit highest; nothing
/// where a character is no digit.
pub open spec fn base62_value(text: Seq<char>) -> Option<int>
    decreases text.len(),
{
    if text.len() == 0 {
        Some(0)
    } else {
        match (base62_value(text.drop_last()), digit_value(text.last())) {
            (Some(high), Some(low)) => Some(high * 62 + low),
            _ => None,
        }
    }
}

/// The id that `text` writes: its base-62 value where that fits 128 bits.
pub open spec fn id_of(text: Seq<char>) -> Option<CatalogId> {
    match base62_value(text) {
        Some(value) => if value <= u128::MAX {
            Some(value as u128)
        } else {
            None
        },
        None => None,
    }
}

/// A prefix of a base-62 number is a number too, and no larger.
proof fn lemma_prefix_value(text: Seq<char>, n: int)
    requires
        0 <= n <= text.len(),
        base62_value(text).is_some(),
    ensures
        base62_value(text.take(n)).is_some(),
        0 <= base62_value(text.take(n)).unwrap() <= base62_value(text).unwrap(),
    decreases text.len(),
{
    if n == text.len() {
        assert(text.take(n) =~= text);
        lemma_value_is_natural(text);
    } else {
        assert(text.drop_last().take(n) =~= text.take(n));
        lemma_prefix_value(text.drop_last(), n);
    }
}

proof fn lemma_value_is_natural(text: Seq<char>)
    requires
        base62_value(text).is_some(),
    ensures
        base62_value(text).unwrap() >= 0,
    decreases text.len(),
{
    if text.len() > 0 {
        lemma_value_is_natural(text.drop_last());
    }
}

/// Reads a base-62 id.
pub fn from_base62(text: &str) -> (r: Option<CatalogId>)
    ensures
        r == id_of(text@),
{
    let n = text.unicode_len();
    let mut value: u128 = 0;
    let mut i: usize = 0;
    while i < n
        invariant
            0 <= i <= n,
            n == text@.len(),
            base62_value(text@.take(i as int)) == Some(value as int),
        decreases n - i,
    {
        let c = text.get_char(i);
        proof {
            assert(text@.take(i + 1).drop_last() =~= text@.take(i as int));
            assert(text@.take(i + 1).last() == c);
        }
        let digit: u128 = if '0' <= c && c <= '9' {
            (c as u32 - '0' as u32) as u128
        } else if 'a' <= c && c <= 'z' {
            (c as u32 - 'a' as u32 + 10) as u128
        } else if 'A' <= c && c <= 'Z' {
            (c as u32 - 'A' as u32 + 36) as u128
        } else {
            proof {
                if base62_value(text@).is_some() {
                    lemma_prefix_value(text@, i + 1);
                }
            }
            return None;
        };
        if value > (u128::MAX - digit) / 62 {
            proof {
                if base62_value(text@).is_some() {
                    lemma_prefix_value(text@, i + 1);
                }
            }
            return None;
        }
        value = value * 62 + digit;
        i += 1;
    }
    proof {
        assert(text@.take(i as int) =~= text@);
    }
    Some(value)
}

/// `text` is `id` written out in full: all its digits, zeros in front.
pub open spec fn is_id_text(text: Seq<char>, id: CatalogId) -> bool {
    text.len() == ID_TEXT_LEN && base62_value(text) == Some(id as int)
}

/// `SpotifyId::to_base62` of the id with this number: its 22 base-62
/// digits, highest first, `0` where the number has none.
#[verifier::external_body]
pub(crate) fn id_to_base62(id: CatalogId) -> (text: String)
    ensures
        is_id_text(text@, id),
{
    SpotifyId { id, audio_type: SpotifyAudioType::Track }.to_base62()
}

/// An id that was written out reads back as itself.
pub proof fn lemma_id_text_reads_back(text: Seq<char>, id: CatalogId)
    requires
        is_id_text(text, id),
    ensures
        id_of(text) == Some(id),
{
}

} // verus!
