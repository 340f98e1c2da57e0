//! What the MQTT transport needs to connect, and the check it applies to
//! the topic filters before subscribing.
use vstd::prelude::*;
use crate::text::utf8;

verus! {

/// Longest plausible MQTT topic filter, in bytes. Mirrors the config's
/// `MAX_LEN`: a length past this is not a topic, it is memory read as one.
pub const MAX_TOPIC_LEN: usize = 512;

/// Everything the MQTT connection needs, passed as one reference.
pub struct Setup<'a> {
    pub url: &'a str,
    pub client_id: &'a str,
    /// Fixed-size on purpose: the length is a compile-time constant.
    pub filters: &'a [String; 5],
}

/// A filter the transport refuses: empty, or longer than the limit.
pub open spec fn implausible(f: Seq<char>) -> bool {
    byte_len(f) == 0 || byte_len(f) > MAX_TOPIC_LEN
}

/// The length of a string in bytes, as `str::len` reports it.
pub open spec fn byte_len(f: Seq<char>) -> usize {
    utf8(f).len() as usize
}

/// The first filter that cannot be a topic (subscribing to it would ask
/// the allocator for its length), if any.
pub fn implausible_filter(filters: &[String; 5]) -> (r: Option<usize>)
    ensures
        match r {
            Some(i) => i < 5 && implausible(filters[i as int]@)
                && forall|j: int| 0 <= j < i ==> !implausible(#[trigger] filters[j]@),
            None => forall|j: int| 0 <= j < 5 ==> !implausible(#[trigger] filters[j]@),
        },
{
    let mut i: usize = 0;
    while i < 5
        invariant
            i <= 5,
            forall|j: int| 0 <= j < i ==> !implausible(#[trigger] filters[j]@),
        decreases 5 - i,
    {
        let f = filters[i].as_str();
        if f.len() == 0 || f.len() > MAX_TOPIC_LEN {
            return Some(i);
        }
        i = i + 1;
    }
    None
}

} // verus!
