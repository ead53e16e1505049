//! Turning a hex-encoded image column into a browser-ready data URL.
//!
//! A record may carry its thumbnail as a string of hex digits. The panel
//! shows it by decoding the hex into bytes, encoding the bytes as base64,
//! and prefixing the result with `data:image;base64,`. The hex decoding
//! reads the string two characters at a time, a trailing lone character
//! standing for its own value, exactly as parsing each chunk as a base-16
//! `u8` would: a chunk may carry a leading `'+'`, and any other character
//! outside `0-9`, `a-f`, `A-F` is an error.

use vstd::prelude::*;

verus! {

/// Value of one hex digit, or `-1` for any other character.
pub open spec fn hex_digit_value(c: char) -> int {
    let u = c as u32;
    if 48 <= u && u <= 57 {
        u - 48
    } else if 97 <= u && u <= 102 {
        u - 87
    } else if 65 <= u && u <= 70 {
        u - 55
    } else {
        -1
    }
}

/// Value of one chunk of at most two characters, read as a base-16 `u8`,
/// or `-1` when the chunk does not parse: an optional leading `'+'`
/// followed by at least one hex digit.
pub open spec fn chunk_value(chunk: Seq<char>) -> int {
    if chunk.len() == 1 {
        hex_digit_value(chunk[0])
    } else if chunk.len() == 2 {
        if chunk[0] == '+' {
            hex_digit_value(chunk[1])
        } else if hex_digit_value(chunk[0]) >= 0 && hex_digit_value(chunk[1]) >= 0 {
            16 * hex_digit_value(chunk[0]) + hex_digit_value(chunk[1])
        } else {
            -1
        }
    } else {
        -1
    }
}

/// Width of the chunk read next from `len` remaining characters.
pub open spec fn chunk_width(len: nat) -> int {
    if len >= 2 {
        2
    } else {
        1
    }
}

/// The bytes encoded by a hex string, two characters per byte, or nothing
/// when some chunk does not parse. The empty string encodes no bytes.
pub open spec fn spec_hex_bytes(s: Seq<char>) -> Option<Seq<u8>>
    decreases s.len(),
{
    if s.len() == 0 {
        Some(Seq::<u8>::empty())
    } else {
        let k = chunk_width(s.len());
        let v = chunk_value(s.take(k));
        if v < 0 {
            None
        } else {
            match spec_hex_bytes(s.skip(k)) {
                Some(rest) => Some(seq![v as u8] + rest),
                None => None,
            }
        }
    }
}

/// The first chunk that does not parse, in a string that has one.
pub open spec fn first_bad_chunk(s: Seq<char>) -> Seq<char>
    recommends
        spec_hex_bytes(s) is None,
    decreases s.len(),
{
    if s.len() == 0 {
        Seq::<char>::empty()
    } else {
        let k = chunk_width(s.len());
        if chunk_value(s.take(k)) < 0 {
            s.take(k)
        } else {
            first_bad_chunk(s.skip(k))
        }
    }
}

/// A chunk of the input that does not parse as a base-16 byte.
#[derive(Debug, Clone)]
pub struct HexError {
    /// The offending chunk, one or two characters.
    pub chunk: String,
}

/// Value of one hex digit.
fn hex_digit_val(c: char) -> (r: Option<u8>)
    ensures
        (r is Some) <==> hex_digit_value(c) >= 0,
        r matches Some(v) ==> v as int == hex_digit_value(c),
{
    let u = c as u32;
    if 48 <= u && u <= 57 {
        Some((u - 48) as u8)
    } else if 97 <= u && u <= 102 {
        Some((u - 87) as u8)
    } else if 65 <= u && u <= 70 {
        Some((u - 55) as u8)
    } else {
        None
    }
}

/// Decode a hex string into bytes, two characters per byte, a trailing
/// lone character standing for its own value. The error carries the first
/// chunk that does not parse.
pub fn hex_to_bytes(s: &str) -> (r: Result<Vec<u8>, HexError>)
    ensures
        (r is Ok) <==> spec_hex_bytes(s@) is Some,
        r matches Ok(b) ==> spec_hex_bytes(s@) == Some(b@) && 2 * b@.len() <= s@.len() + 1,
        r matches Err(e) ==> e.chunk@ == first_bad_chunk(s@),
{
    let n = s.unicode_len();
    let mut bytes: Vec<u8> = Vec::new();
    let mut i: usize = 0;
    proof {
        assert(s@.skip(0) =~= s@);
        assert(spec_hex_bytes(s@) matches Some(all) ==> bytes@ + all =~= all);
    }
    while i < n
        invariant
            n == s@.len(),
            i <= n,
            2 * bytes@.len() <= i + 1,
            i < n ==> 2 * bytes@.len() == i,
            (spec_hex_bytes(s@) is Some) <==> (spec_hex_bytes(s@.skip(i as int)) is Some),
            spec_hex_bytes(s@) matches Some(all) ==> spec_hex_bytes(s@.skip(i as int)) matches Some(rest)
                && all == bytes@ + rest,
            spec_hex_bytes(s@.skip(i as int)) is None ==> first_bad_chunk(s@) == first_bad_chunk(
                s@.skip(i as int),
            ),
        decreases n - i,
    {
        let ghost rem = s@.skip(i as int);
        let k: usize = if n - i >= 2 {
            2
        } else {
            1
        };
        proof {
            assert(rem.len() == n - i);
            assert(chunk_width(rem.len()) == k as int);
            assert(rem.take(k as int) =~= s@.subrange(i as int, i as int + k as int));
            assert(rem.skip(k as int) =~= s@.skip(i as int + k as int));
        }
        let c0 = s.get_char(i);
        let value: Option<u8> = if k == 2 {
            let c1 = s.get_char(i + 1);
            if c0 == '+' {
                hex_digit_val(c1)
            } else {
                match (hex_digit_val(c0), hex_digit_val(c1)) {
                    (Some(v0), Some(v1)) => Some(16 * v0 + v1),
                    _ => None,
                }
            }
        } else {
            hex_digit_val(c0)
        };
        proof {
            assert(rem.take(k as int)[0] == c0);
            if k == 2 {
                assert(rem.take(k as int)[1] == s@[i as int + 1]);
            }
            assert(match value {
                Some(v) => chunk_value(rem.take(k as int)) == v as int,
                None => chunk_value(rem.take(k as int)) < 0,
            });
        }
        match value {
            Some(v) => {
                bytes.push(v);
                i = i + k;
            },
            None => {
                let chunk = s.substring_char(i, i + k);
                return Err(HexError { chunk: chunk.to_owned() });
            },
        }
    }
    proof {
        assert(s@.skip(n as int) =~= Seq::<char>::empty());
    }
    Ok(bytes)
}

/// The base64 text that the standard alphabet with padding assigns to a
/// byte sequence. Four characters stand for each three bytes.
pub uninterp spec fn base64_of(bytes: Seq<u8>) -> Seq<char>;

/// Relies on base64's `STANDARD` engine: `encode` returns the base64 text
/// of its input, four characters per three bytes, padded. The engine
/// panics when the encoded length overflows, so very long inputs are
/// excluded.
#[verifier::external_body]
fn base64_encode(bytes: &Vec<u8>) -> (r: String)
    requires
        bytes@.len() <= usize::MAX / 4,
    ensures
        r@ == base64_of(bytes@),
        r@.len() == 4 * ((bytes@.len() + 2) / 3),
{
    base64::Engine::encode(&base64::engine::general_purpose::STANDARD, bytes)
}

/// Decode a hex string and re-encode it as an inline image data URL:
/// `data:image;base64,` followed by the base64 text of the decoded bytes.
pub fn image_data_url(s: &str) -> (r: Result<String, HexError>)
    requires
        s@.len() < usize::MAX / 2,
    ensures
        (r is Ok) <==> spec_hex_bytes(s@) is Some,
        r matches Ok(url) ==> spec_hex_bytes(s@) matches Some(bytes) && url@ == "data:image;base64,"@
            + base64_of(bytes),
        r matches Err(e) ==> e.chunk@ == first_bad_chunk(s@),
{
    let bytes = match hex_to_bytes(s) {
        Ok(bytes) => bytes,
        Err(e) => {
            return Err(e);
        },
    };
    let encoded = base64_encode(&bytes);
    let mut url: String = "data:image;base64,".to_owned();
    url.append(encoded.as_str());
    Ok(url)
}

/// An optional hex-encoded image column, decoded to an optional data URL:
/// an absent value stays absent, a present value must decode.
pub fn opt_bytes_from_str(value: Option<String>) -> (r: Result<Option<String>, HexError>)
    requires
        value matches Some(s) ==> s@.len() < usize::MAX / 2,
    ensures
        value is None ==> (r matches Ok(v) && v is None),
        value matches Some(s) ==> {
            &&& (r is Ok) <==> spec_hex_bytes(s@) is Some
            &&& r matches Ok(v) ==> v matches Some(url) && spec_hex_bytes(s@) matches Some(bytes)
                && url@ == "data:image;base64,"@ + base64_of(bytes)
            &&& r matches Err(e) ==> e.chunk@ == first_bad_chunk(s@)
        },
{
    match value {
        None => Ok(None),
        Some(s) => {
            match image_data_url(s.as_str()) {
                Ok(url) => Ok(Some(url)),
                Err(e) => Err(e),
            }
        },
    }
}

} // verus!
