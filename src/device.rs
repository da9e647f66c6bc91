//! Device identities: a device is addressed by the hash of its input path.
use std::collections::hash_map::DefaultHasher;
use std::hash::Hasher;
use vstd::prelude::*;
use vstd::std_specs::hash::DefaultHasherAdditionalSpecFns;

verus! {

/// The identity of the device at input path `path`: the standard hasher fed
/// the path's UTF-8 bytes followed by the `0xff` terminator that `str`
/// hashing appends.
pub open spec fn path_hash(path: Seq<char>) -> u64 {
    DefaultHasher::spec_finish(seq![vstd::utf8::encode_utf8(path), seq![0xffu8]])
}

/// Hashes an input path (such as `/user/head`) into a device identity.
pub fn path_string_to_hash(path: &str) -> (r: u64)
    ensures
        r == path_hash(path@),
{
    let mut hasher = DefaultHasher::new();
    hasher.write(path.as_bytes());
    let terminator: [u8; 1] = [0xffu8];
    hasher.write(&terminator);
    assert(terminator@ =~= seq![0xffu8]);
    assert(hasher@ =~= seq![vstd::utf8::encode_utf8(path@), seq![0xffu8]]);
    hasher.finish()
}

/// Identity of the headset.
pub open spec fn spec_head_id() -> u64 {
    path_hash("/user/head"@)
}

/// Identity of the left controller or hand.
pub open spec fn spec_left_hand_id() -> u64 {
    path_hash("/user/hand/left"@)
}

/// Identity of the right controller or hand.
pub open spec fn spec_right_hand_id() -> u64 {
    path_hash("/user/hand/right"@)
}

pub fn head_id() -> (r: u64)
    ensures
        r == spec_head_id(),
{
    path_string_to_hash("/user/head")
}

pub fn left_hand_id() -> (r: u64)
    ensures
        r == spec_left_hand_id(),
{
    path_string_to_hash("/user/hand/left")
}

pub fn right_hand_id() -> (r: u64)
    ensures
        r == spec_right_hand_id(),
{
    path_string_to_hash("/user/hand/right")
}

} // verus!
