//! The name under which a photo is kept.

use vstd::prelude::*;
use vstd::string::*;
use vstd::utf8::*;

verus! {

/// The position of the last dot among the bytes of a name, or -1 where
/// there is none.
pub open spec fn last_dot(bytes: Seq<u8>) -> int
    decreases bytes.len(),
{
    if bytes.len() == 0 {
        -1
    } else if bytes.last() == 46 {
        bytes.len() - 1
    } else {
        last_dot(bytes.drop_last())
    }
}

/// The extension of a file name: what stands from its last dot on, the dot
/// included.
pub open spec fn extension_of(filename: Seq<char>) -> Option<Seq<char>> {
    let bytes = encode_utf8(filename);
    let dot = last_dot(bytes);
    if dot < 0 {
        None
    } else {
        Some(decode_utf8(bytes.subrange(dot, bytes.len() as int)))
    }
}

/// The name of the photo that every account has until it sends one.
pub open spec fn default_photo() -> Seq<char> {
    "default.png"@
}

/// The name under which a photo is kept: the id drawn for it with the
/// extension of the file that was sent. Without an id, without a file name
/// or without an extension nothing is kept and the name is the default one.
pub open spec fn saved_name(photo_id: Option<Seq<char>>, filename: Option<Seq<char>>) -> Seq<char> {
    match (photo_id, filename) {
        (Some(id), Some(name)) => match extension_of(name) {
            Some(extension) => id + extension,
            None => default_photo(),
        },
        _ => default_photo(),
    }
}

/// The view of an optional text.
pub open spec fn text_view(text: Option<&str>) -> Option<Seq<char>> {
    match text {
        Some(t) => Some(t@),
        None => None,
    }
}

proof fn lemma_last_dot(bytes: Seq<u8>)
    ensures
        -1 <= last_dot(bytes) < bytes.len(),
        last_dot(bytes) >= 0 ==> bytes[last_dot(bytes)] == 46,
    decreases bytes.len(),
{
    if bytes.len() > 0 && bytes.last() != 46 {
        lemma_last_dot(bytes.drop_last());
    }
}

/// Finds the last dot among the bytes of a name.
fn find_last_dot(bytes: &[u8]) -> (dot: Option<usize>)
    ensures
        match dot {
            Some(i) => last_dot(bytes@) == i,
            None => last_dot(bytes@) == -1,
        },
{
    let mut end: usize = bytes.len();
    assert(bytes@.take(end as int) =~= bytes@);
    while end > 0
        invariant
            end <= bytes.len(),
            last_dot(bytes@) == last_dot(bytes@.take(end as int)),
        decreases end,
    {
        if bytes[end - 1] == 46 {
            return Some(end - 1);
        }
        assert(bytes@.take(end as int).drop_last() =~= bytes@.take(end - 1));
        end = end - 1;
    }
    None
}

/// The name under which to keep a photo.
pub fn photo_name(photo_id: Option<&str>, filename: Option<&str>) -> (name: String)
    ensures
        name@ == saved_name(text_view(photo_id), text_view(filename)),
{
    broadcast use {encode_utf8_valid_utf8, encode_utf8_decode_utf8};

    if let (Some(id), Some(file)) = (photo_id, filename) {
        if let Some(dot) = find_last_dot(file.as_bytes()) {
            proof {
                let bytes = encode_utf8(file@);
                lemma_last_dot(bytes);
                is_char_boundary_iff_not_is_continuation_byte(bytes, dot as int);
            }
            let (_, extension) = file.split_at(dot);
            let mut name = String::from_str(id);
            name.append(extension);
            return name;
        }
    }
    String::from_str("default.png")
}

/// Where a file is kept: its name behind the directory of the store, put
/// together as they are.
pub fn destination(storage_dir: &str, name: &str) -> (path: String)
    ensures
        path@ == storage_dir@ + name@,
{
    let mut path = String::from_str(storage_dir);
    path.append(name);
    path
}

} // verus!
