//! The config space that the guest reads: the mount tag, then the number of
//! request queues.

use vstd::prelude::*;

verus! {

/// Length in bytes of the tag field in the fs device config space.
pub const TAG_LEN: usize = 36;

/// Fs device config space size in bytes: the mount tag (`TAG_LEN` bytes)
/// followed by `num_request_queues` as a little-endian u16.
pub const FS_CONFIG_SPACE_SIZE: usize = 38;

/// How many bytes of a tag of `len` bytes the tag field holds: at least one
/// byte of the field stays NUL.
pub open spec fn stored_tag_len(len: nat) -> nat {
    if len < TAG_LEN {
        len
    } else {
        (TAG_LEN - 1) as nat
    }
}

/// The two bytes of `n`, the low one first.
pub open spec fn le_bytes(n: u16) -> Seq<u8> {
    seq![(n % 256) as u8, (n / 256) as u8]
}

/// The config space for a tag of the given bytes: the stored part of the tag,
/// NUL bytes up to `TAG_LEN`, and the number of request queues.
pub open spec fn config_space(tag: Seq<u8>, num_request_queues: u16) -> Seq<u8> {
    let stored = stored_tag_len(tag.len());
    tag.take(stored as int) + Seq::new((TAG_LEN - stored) as nat, |i: int| 0u8) + le_bytes(
        num_request_queues,
    )
}

/// Builds the fs device config space from the mount tag and the number of
/// request queues. The tag is a frontend property, so the config space is
/// built locally and never fetched from the backend.
pub fn build_config_space(tag: &str, num_request_queues: u16) -> (space: Vec<u8>)
    ensures
        space@ == config_space(vstd::utf8::encode_utf8(tag@), num_request_queues),
{
    let bytes = tag.as_bytes();
    // The tag is NUL-padded to `TAG_LEN` bytes. A tag that does not fit is
    // truncated to `TAG_LEN - 1` bytes so that the field always ends with a
    // NUL byte.
    let tag_len: usize = if bytes.len() < TAG_LEN {
        bytes.len()
    } else {
        TAG_LEN - 1
    };
    let mut space: Vec<u8> = Vec::with_capacity(FS_CONFIG_SPACE_SIZE);
    let mut i: usize = 0;
    while i < tag_len
        invariant
            i <= tag_len <= bytes@.len(),
            space@ == bytes@.take(i as int),
        decreases tag_len - i,
    {
        space.push(bytes[i]);
        i = i + 1;
    }
    while i < TAG_LEN
        invariant
            tag_len <= i <= TAG_LEN,
            tag_len <= bytes@.len(),
            space@ == bytes@.take(tag_len as int) + Seq::new((i - tag_len) as nat, |j: int| 0u8),
        decreases TAG_LEN - i,
    {
        space.push(0);
        i = i + 1;
    }
    space.push((num_request_queues % 256) as u8);
    space.push((num_request_queues / 256) as u8);
    space
}

/// Whatever the tag, the config space has its fixed size, the tag field starts
/// with the stored part of the tag and ends with NUL bytes, at least one, and
/// the number of request queues is read back as it was written.
pub proof fn law_config_space_layout(tag: Seq<u8>, num_request_queues: u16)
    ensures
        ({
            let space = config_space(tag, num_request_queues);
            let stored = stored_tag_len(tag.len()) as int;
            &&& space.len() == FS_CONFIG_SPACE_SIZE
            &&& stored < TAG_LEN
            &&& space.take(stored) == tag.take(stored)
            &&& forall|i: int| stored <= i < TAG_LEN ==> #[trigger] space[i] == 0
            &&& space[TAG_LEN as int] + 256 * space[TAG_LEN + 1] == num_request_queues
        }),
{
    let space = config_space(tag, num_request_queues);
    let stored = stored_tag_len(tag.len()) as int;
    assert(space.take(stored) =~= tag.take(stored));
}

/// A tag without NUL bytes is read back from the config space up to the first
/// NUL byte: whole if it is shorter than the field, else its first
/// `TAG_LEN - 1` bytes.
pub proof fn law_config_space_reads_back(tag: Seq<u8>, num_request_queues: u16)
    requires
        !tag.contains(0),
    ensures
        ({
            let space = config_space(tag, num_request_queues);
            let stored = stored_tag_len(tag.len()) as int;
            &&& space.take(stored) == tag.take(stored)
            &&& !space.take(stored).contains(0)
            &&& space[stored] == 0
        }),
{
    let space = config_space(tag, num_request_queues);
    let stored = stored_tag_len(tag.len()) as int;
    assert(space.take(stored) =~= tag.take(stored));
    assert forall|i: int| 0 <= i < stored implies space.take(stored)[i] != 0 by {
        assert(tag.contains(tag[i]));
    }
}

/// Two tags without NUL bytes show the guest the same config space exactly if
/// the parts of them that are stored are the same, and so are the numbers of
/// request queues. Tags that fit the field are stored whole.
pub proof fn law_config_space_injective(tag1: Seq<u8>, n1: u16, tag2: Seq<u8>, n2: u16)
    requires
        !tag1.contains(0),
        !tag2.contains(0),
    ensures
        ({
            let stored1 = tag1.take(stored_tag_len(tag1.len()) as int);
            let stored2 = tag2.take(stored_tag_len(tag2.len()) as int);
            &&& config_space(tag1, n1) == config_space(tag2, n2) <==> stored1 == stored2 && n1 == n2
            &&& tag1.len() < TAG_LEN ==> stored1 == tag1
            &&& tag2.len() < TAG_LEN ==> stored2 == tag2
        }),
{
    let len1 = stored_tag_len(tag1.len()) as int;
    let len2 = stored_tag_len(tag2.len()) as int;
    let space1 = config_space(tag1, n1);
    let space2 = config_space(tag2, n2);
    law_config_space_layout(tag1, n1);
    law_config_space_layout(tag2, n2);
    law_config_space_reads_back(tag1, n1);
    law_config_space_reads_back(tag2, n2);
    if space1 == space2 {
        if len1 < len2 {
            assert(space2.take(len2)[len1] == 0);
        } else if len2 < len1 {
            assert(space1.take(len1)[len2] == 0);
        }
    } else if tag1.take(len1) == tag2.take(len2) && n1 == n2 {
        assert(tag1.take(len1).len() == len1);
        assert(tag2.take(len2).len() == len2);
        assert(space1 =~= space2);
    }
    if tag1.len() < TAG_LEN {
        assert(tag1.take(len1) =~= tag1);
    }
    if tag2.len() < TAG_LEN {
        assert(tag2.take(len2) =~= tag2);
    }
}

/// What the guest finds at each byte of the config space: the tag from byte 0
/// on, cut after 35 bytes, NUL bytes up to byte 36, and then the number of
/// request queues, low byte first.
pub proof fn law_config_space_bytes(tag: Seq<u8>, num_request_queues: u16)
    ensures
        ({
            let space = config_space(tag, num_request_queues);
            &&& space.len() == 38
            &&& forall|i: int|
                #![trigger space[i]]
                0 <= i < 36 ==> space[i] == if i < tag.len() && i < 35 {
                    tag[i]
                } else {
                    0
                }
            &&& space[36] == num_request_queues as int % 256
            &&& space[37] == num_request_queues as int / 256
        }),
{
}

} // verus!
