use vstd::prelude::*;
use vstd::string::StringExecFns;
use vstd::string::StringSliceAdditionalSpecFns;
use vstd::utf8::{decode_utf8, valid_utf8, encode_utf8_decode_utf8};

verus! {

/// The error of std::str::from_utf8, carried as an opaque value.
#[verifier::external_type_specification]
#[verifier::external_body]
pub struct ExUtf8Error(std::str::Utf8Error);

/// Relies on std::str::from_utf8: it succeeds exactly on valid UTF-8, and the text
/// it returns is made of the bytes given.
#[verifier::external_body]
pub(crate) fn utf8_text(bytes: &[u8]) -> (r: Result<&str, std::str::Utf8Error>)
    ensures
        r.is_ok() == valid_utf8(bytes@),
        r matches Ok(t) ==> t.spec_bytes() == bytes@,
{
    std::str::from_utf8(bytes)
}


/// The text of `bytes`, or `None` where they are not valid UTF-8.
pub fn decode_text(bytes: &[u8]) -> (r: Option<&str>)
    ensures
        r.is_some() == valid_utf8(bytes@),
        r matches Some(t) ==> t@ == decode_utf8(bytes@),
{
    match utf8_text(bytes) {
        Ok(t) => {
            proof {
                encode_utf8_decode_utf8(t@);
            }
            Some(t)
        },
        Err(_) => None,
    }
}

/// The number of Unicode scalar values in the UTF-8 text `bytes`, cut to 32 bits;
/// `None` where the bytes are not valid UTF-8.
pub fn how_many_characters(bytes: &[u8]) -> (r: Option<u32>)
    ensures
        r == (if valid_utf8(bytes@) {
            Some((decode_utf8(bytes@).len() % 0x1_0000_0000) as u32)
        } else {
            None::<u32>
        }),
{
    match decode_text(bytes) {
        Some(t) => Some((t.unicode_len() as u64 % 0x1_0000_0000) as u32),
        None => None,
    }
}

/// The opening of the song: a bomb and a space.
pub open spec fn song_prefix() -> Seq<char> {
    seq!['\u{1F4A3}', ' ']
}

/// The token that the song repeats.
pub open spec fn song_token() -> Seq<char> {
    seq!['n', 'a', ' ']
}

/// The closing of the song.
pub open spec fn song_suffix() -> Seq<char> {
    seq!['B', 'a', 't', 'm', 'a', 'n', '!', ' ', '\u{1F4A3}']
}

/// `n` copies of the token, one after another.
pub open spec fn song_tokens(n: nat) -> Seq<char>
    decreases n,
{
    if n == 0 {
        Seq::empty()
    } else {
        song_tokens((n - 1) as nat) + song_token()
    }
}

/// The whole song with `n` repetitions of the token.
pub open spec fn song(n: nat) -> Seq<char> {
    song_prefix() + song_tokens(n) + song_suffix()
}

/// The song with `length` repetitions of the token between its opening and closing.
pub fn theme_song_generate(length: u8) -> (r: String)
    ensures
        r@ == song(length as nat),
{
    proof {
        reveal_strlit("\u{1F4A3} ");
    }
    let mut text = String::from_str("\u{1F4A3} ");
    assert(text@ =~= song_prefix());
    let mut i: u8 = 0;
    while i < length
        invariant
            i <= length,
            text@ == song_prefix() + song_tokens(i as nat),
        decreases length - i,
    {
        proof {
            reveal_strlit("na ");
        }
        text.append("na ");
        assert(song_tokens((i + 1) as nat) == song_tokens(i as nat) + song_token());
        assert(text@ =~= song_prefix() + song_tokens((i + 1) as nat));
        i = i + 1;
    }
    proof {
        reveal_strlit("Batman! \u{1F4A3}");
    }
    text.append("Batman! \u{1F4A3}");
    assert(text@ =~= song(length as nat));
    text
}

} // verus!
