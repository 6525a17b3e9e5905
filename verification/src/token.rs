//! The outer shape of a bearer token: three segments of ASCII text with a
//! dot between each two.

use vstd::prelude::*;
use vstd::string::is_ascii_spec_bytes;
use vstd::string::StrSliceExecFns;
use vstd::string::StringSliceAdditionalSpecFns;
use vstd::utf8::is_ascii_chars;

verus! {

/// `token` has a dot at `first`, a dot at `second`, and no other.
pub open spec fn splits_at(token: Seq<char>, first: int, second: int) -> bool {
    &&& 0 <= first < second < token.len()
    &&& token[first] == '.'
    &&& token[second] == '.'
    &&& forall|k: int| 0 <= k < token.len() && k != first && k != second ==> token[k] != '.'
}

/// A token has the right shape when it is ASCII and holds exactly two dots.
pub open spec fn well_shaped(token: Seq<char>) -> bool {
    is_ascii_chars(token) && exists|first: int, second: int| splits_at(token, first, second)
}

/// The pieces of a token.
pub ghost struct Segments {
    /// The text before the first dot.
    pub header: Seq<char>,
    /// The text between the dots.
    pub payload: Seq<char>,
    /// The text after the second dot.
    pub signature: Seq<char>,
    /// The text before the second dot: what the signature is over.
    pub signed: Seq<char>,
}

/// The pieces of `token` when its dots are at `first` and `second`.
pub open spec fn segments_at(token: Seq<char>, first: int, second: int) -> Segments {
    Segments {
        header: token.subrange(0, first),
        payload: token.subrange(first + 1, second),
        signature: token.subrange(second + 1, token.len() as int),
        signed: token.subrange(0, second),
    }
}

/// The pieces of a well-shaped token.
pub open spec fn segments(token: Seq<char>) -> Segments {
    let (first, second) = choose|first: int, second: int| splits_at(token, first, second);
    segments_at(token, first, second)
}

/// A token splits in at most one way.
pub proof fn split_is_unique(token: Seq<char>, first: int, second: int, other_first: int, other_second: int)
    requires
        splits_at(token, first, second),
        splits_at(token, other_first, other_second),
    ensures
        first == other_first,
        second == other_second,
{
}

/// However the dots of a token were found, the pieces are the same.
pub proof fn segments_of_split(token: Seq<char>, first: int, second: int)
    requires
        splits_at(token, first, second),
    ensures
        segments(token) == segments_at(token, first, second),
{
    let (chosen_first, chosen_second) = choose|a: int, b: int| splits_at(token, a, b);
    split_is_unique(token, first, second, chosen_first, chosen_second);
}

/// The pieces of a well-shaped token hold no dot, and the token is the
/// header, a dot, the payload, a dot and the signature, in that order.
pub proof fn segments_rebuild(token: Seq<char>)
    requires
        well_shaped(token),
    ensures
        !segments(token).header.contains('.'),
        !segments(token).payload.contains('.'),
        !segments(token).signature.contains('.'),
        segments(token).signed == segments(token).header + seq!['.'] + segments(token).payload,
        token == segments(token).signed + seq!['.'] + segments(token).signature,
{
    let (first, second) = choose|a: int, b: int| splits_at(token, a, b);
    let parts = segments(token);
    assert(parts.signed =~= parts.header + seq!['.'] + parts.payload);
    assert(token =~= parts.signed + seq!['.'] + parts.signature);
}

/// The pieces of a token, borrowed from it.
#[derive(Clone, Copy, Debug)]
pub struct TokenSegments<'a> {
    pub header: &'a str,
    pub payload: &'a str,
    pub signature: &'a str,
    pub signed: &'a str,
}

impl<'a> View for TokenSegments<'a> {
    type V = Segments;

    open spec fn view(&self) -> Segments {
        Segments {
            header: self.header@,
            payload: self.payload@,
            signature: self.signature@,
            signed: self.signed@,
        }
    }
}

/// Takes a token apart at its two dots. `None` where it is not ASCII or
/// does not hold exactly two dots.
pub fn split_token<'a>(token: &'a str) -> (parts: Option<TokenSegments<'a>>)
    ensures
        parts.is_some() == well_shaped(token@),
        parts matches Some(found) ==> found@ == segments(token@),
{
    if !token.is_ascii() {
        return None;
    }
    let bytes = token.as_bytes();
    proof {
        is_ascii_spec_bytes(token);
    }
    let length = bytes.len();
    let mut first: Option<usize> = None;
    let mut second: Option<usize> = None;
    let mut at: usize = 0;
    while at < length
        invariant
            is_ascii_chars(token@),
            length == token@.len(),
            bytes@.len() == length,
            forall|k: int| 0 <= k < length ==> bytes@[k] == token@[k] as u8,
            at <= length,
            first matches Some(a) ==> a < at && token@[a as int] == '.',
            second matches Some(b) ==> b < at && token@[b as int] == '.' && first is Some
                && first->0 < b,
            forall|k: int|
                0 <= k < at && first != Some(k as usize) && second != Some(k as usize)
                    ==> token@[k] != '.',
        decreases length - at,
    {
        if bytes[at] == 46u8 {
            assert(token@[at as int] == '.');
            if first.is_none() {
                first = Some(at);
            } else if second.is_none() {
                second = Some(at);
            } else {
                assert forall|a: int, b: int| !splits_at(token@, a, b) by {
                    let one = first->0 as int;
                    let two = second->0 as int;
                    let three = at as int;
                    if splits_at(token@, a, b) {
                        assert(token@[one] == '.' && token@[two] == '.' && token@[three] == '.');
                    }
                }
                return None;
            }
        } else {
            assert(token@[at as int] != '.');
        }
        at += 1;
    }
    match (first, second) {
        (Some(a), Some(b)) => {
            proof {
                assert(splits_at(token@, a as int, b as int));
                segments_of_split(token@, a as int, b as int);
            }
            Some(
                TokenSegments {
                    header: token.substring_ascii(0, a),
                    payload: token.substring_ascii(a + 1, b),
                    signature: token.substring_ascii(b + 1, length),
                    signed: token.substring_ascii(0, b),
                },
            )
        },
        _ => {
            assert forall|a: int, b: int| !splits_at(token@, a, b) by {
                if splits_at(token@, a, b) {
                    assert(token@[a] == '.' && token@[b] == '.');
                }
            }
            None
        },
    }
}

} // verus!
