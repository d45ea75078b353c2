use vstd::prelude::*;
use vstd::utf8::*;

verus! {

/// What `str::to_lowercase` of std returns on a string (Unicode lower case
/// mapping, which may change the length of the string).
pub uninterp spec fn lowercase(s: Seq<char>) -> Seq<char>;

/// The UTF-32 little-endian bytes of characters: four bytes per character.
pub open spec fn utf32_le(cs: Seq<char>) -> Seq<u8>
    decreases cs.len(),
{
    if cs.len() == 0 {
        Seq::empty()
    } else {
        let v = cs[0] as u32;
        seq![(v % 256) as u8, ((v / 256) % 256) as u8, ((v / 65536) % 256) as u8, (v / 16777216) as u8]
            + utf32_le(cs.drop_first())
    }
}

/// The non-empty pieces of `s` between dots, in order, the first of them
/// continuing `pending`.
pub open spec fn dot_parts(s: Seq<char>, pending: Seq<char>) -> Seq<Seq<char>>
    decreases s.len(),
{
    let done: Seq<Seq<char>> = if pending.len() > 0 { seq![pending] } else { Seq::empty() };
    if s.len() == 0 {
        done
    } else if s[0] == '.' {
        done + dot_parts(s.drop_first(), Seq::empty())
    } else {
        dot_parts(s.drop_first(), pending.push(s[0]))
    }
}

/// The components of a path written as text: the non-empty pieces between
/// dots, each as the UTF-32 little-endian bytes of its characters.
pub open spec fn text_path(s: Seq<char>) -> Seq<Seq<u8>> {
    dot_parts(s, Seq::empty()).map_values(|part: Seq<char>| utf32_le(part))
}

/// A piece of `s`, starting at `p` (the start or just after a dot), that
/// reads as `hdk`'s sharding notation `<width>:<depth>#...`: a colon at `i`,
/// and a `#` at `k` with at least one character between them, with no dot
/// in between.
pub open spec fn shard_notation_at(s: Seq<char>, p: int, i: int, k: int) -> bool {
    &&& 0 <= p < i && i + 1 < k < s.len()
    &&& (p == 0 || s[p - 1] == '.')
    &&& s[i] == ':' && s[k] == '#'
    &&& forall|j: int| p <= j <= k ==> s[j] != '.'
}

/// No piece of `s` between dots reads as sharding notation.
pub open spec fn shard_free(s: Seq<char>) -> bool {
    forall|p: int, i: int, k: int| !shard_notation_at(s, p, i, k)
}

/// `str::to_lowercase` of std.
///
/// Trusted: the result is the lower-case mapping of the argument, whatever
/// std computes; nothing more is stated of it.
#[verifier::external_body]
fn to_lowercase(s: &str) -> (r: String)
    ensures
        r@ == lowercase(s@),
{
    s.to_lowercase()
}

/// `hdk::hash_path::path::Path::from(&str)`, with each component unwrapped to
/// its bytes.
///
/// Trusted: on a string none of whose pieces reads as sharding notation,
/// `hdk` splits on `.`, drops the empty pieces and encodes each piece as the
/// UTF-32 little-endian bytes of its characters. Strings with sharding
/// notation are left out: `hdk` reads them otherwise, and may overflow on
/// their numbers.
#[verifier::external_body]
fn hdk_path_of(s: &str) -> (r: Vec<Vec<u8>>)
    requires
        shard_free(s@),
    ensures
        r.deep_view() == text_path(s@),
{
    let components: Vec<hdk::hash_path::path::Component> = hdk::hash_path::path::Path::from(s).into();
    components.into_iter().map(|c| c.into()).collect()
}

/// The prefix under which every burner's search path sits.
pub open spec fn burners_root() -> Seq<char> {
    seq!['a', 'l', 'l', '_', 'b', 'u', 'r', 'n', 'e', 'r', 's']
}

/// The bytes of the lower-cased name, in UTF-8.
pub open spec fn lowered_bytes(name: Seq<char>) -> Seq<u8> {
    encode_utf8(lowercase(name))
}

/// A name has a search bucket when the first three bytes of its lower-cased
/// UTF-8 form end on a character boundary (so the name is at least three bytes
/// long there).
pub open spec fn has_bucket(name: Seq<char>) -> bool {
    is_char_boundary(lowered_bytes(name), 3)
}

/// What a bucket needs, byte by byte: a name has a search bucket exactly
/// when its lower-cased UTF-8 form is three bytes long, or longer with a
/// fourth byte that starts a character (not a continuation byte). So every
/// name whose lower-cased form is three one-byte letters has one.
pub proof fn law_bucket_is_three_whole_bytes(name: Seq<char>)
    ensures
        has_bucket(name) <==> (lowered_bytes(name).len() == 3
            || (lowered_bytes(name).len() > 3 && !is_continuation_byte(lowered_bytes(name)[3]))),
{
    let b = lowered_bytes(name);
    encode_utf8_valid_utf8(lowercase(name));
    if b.len() == 3 {
        is_char_boundary_start_end_of_seq(b);
    } else if b.len() > 3 {
        is_char_boundary_iff_not_is_continuation_byte(b, 3);
    }
}

/// The bucket of a name: the characters of the first three bytes of its
/// lower-cased form.
pub open spec fn bucket(name: Seq<char>) -> Seq<char> {
    decode_utf8(lowered_bytes(name).subrange(0, 3))
}

/// The search path string of a burner name: `all_burners.<bucket>`.
pub open spec fn prefix_path_string(name: Seq<char>) -> Seq<char> {
    burners_root() + seq!['.'] + bucket(name)
}

/// Whether the name has a search bucket (else `prefix_path` cannot be taken).
pub fn name_has_bucket(name: &str) -> (r: bool)
    ensures
        r == has_bucket(name@),
{
    let lower = to_lowercase(name);
    let s: &str = lower.as_str();
    s.is_char_boundary(3)
}

/// The search path of a burner name: the path of `all_burners.<bucket>`, where
/// the bucket is the first three bytes of the lower-cased name.
pub fn prefix_path(name: &str) -> (p: Vec<Vec<u8>>)
    requires
        has_bucket(name@),
    ensures
        p.deep_view() == text_path(prefix_path_string(name@)),
{
    let lower = to_lowercase(name);
    let s: &str = lower.as_str();
    let (prefix, _rest) = s.split_at(3);
    proof {
        encode_utf8_decode_utf8(prefix@);
        assert(prefix@ == bucket(name@));
    }
    let mut full = String::from_str("all_burners.");
    proof {
        reveal_strlit("all_burners.");
        assert("all_burners."@ =~= burners_root() + seq!['.']);
    }
    full.append(prefix);
    proof {
        lemma_encode_utf8_len(prefix@);
        encode_utf8_valid_utf8(s@);
        assert(encode_utf8(s@).len() >= 3);
        assert(encode_utf8(prefix@).len() == 3);
        lemma_bucket_path_shard_free(prefix@, full@);
    }
    let q = hdk_path_of(full.as_str());
    q
}

/// UTF-8 takes at least one byte per character.
pub proof fn lemma_encode_utf8_len(cs: Seq<char>)
    ensures
        encode_utf8(cs).len() >= cs.len(),
    decreases cs.len(),
{
    if cs.len() > 0 {
        lemma_encode_utf8_len(cs.drop_first());
    }
}

/// A search path string `all_burners.<b>` with a bucket of at most three
/// characters holds no sharding notation.
proof fn lemma_bucket_path_shard_free(b: Seq<char>, s: Seq<char>)
    requires
        b.len() <= 3,
        s == burners_root() + seq!['.'] + b,
    ensures
        shard_free(s),
{
    assert forall|p: int, i: int, k: int| !shard_notation_at(s, p, i, k) by {
        if shard_notation_at(s, p, i, k) {
            if p <= 11 {
                if k >= 11 {
                    assert(s[11] == '.');
                } else {
                    assert(s[i] == burners_root()[i]);
                }
            } else {
                assert(k < 15);
            }
        }
    }
}

/// The search path of a burner name, or `None` when the name has no bucket.
pub fn try_prefix_path(name: &str) -> (p: Option<Vec<Vec<u8>>>)
    ensures
        p is None <==> !has_bucket(name@),
        p matches Some(q) ==> q.deep_view() == text_path(prefix_path_string(name@)),
{
    if name_has_bucket(name) {
        Some(prefix_path(name))
    } else {
        None
    }
}

/// Names that lower-case alike have the same search path: the search is
/// blind to case.
pub proof fn lemma_search_path_ignores_case(a: Seq<char>, b: Seq<char>)
    requires
        lowercase(a) == lowercase(b),
    ensures
        has_bucket(a) == has_bucket(b),
        prefix_path_string(a) == prefix_path_string(b),
{
}

/// Names whose lower-cased forms begin with the same three bytes share a
/// search path: the path groups names by that prefix.
pub proof fn lemma_search_path_by_prefix(a: Seq<char>, b: Seq<char>)
    requires
        lowered_bytes(a).subrange(0, 3) == lowered_bytes(b).subrange(0, 3),
    ensures
        prefix_path_string(a) == prefix_path_string(b),
{
}

/// The path that holds every burner of the older zome: `all_burners`.
pub fn burners_path() -> (p: Vec<Vec<u8>>)
    ensures
        p.deep_view() == text_path(burners_root()),
{
    let s = "all_burners";
    proof {
        reveal_strlit("all_burners");
        assert(s@ =~= burners_root());
        assert forall|p: int, i: int, k: int| !shard_notation_at(s@, p, i, k) by {
            if 0 <= i < s@.len() {
                assert(s@[i] == burners_root()[i]);
            }
        }
    }
    hdk_path_of(s)
}

/// The characters of the habits' path of the older zome.
pub open spec fn habits_root() -> Seq<char> {
    seq!['a', 'l', 'l', '_', 'h', 'a', 'b', 'i', 't', 's']
}

/// The path that holds every habit of the older zome: `all_habits`.
pub fn habits_path() -> (p: Vec<Vec<u8>>)
    ensures
        p.deep_view() == text_path(habits_root()),
{
    let s = "all_habits";
    proof {
        reveal_strlit("all_habits");
        assert(s@ =~= habits_root());
        assert forall|p: int, i: int, k: int| !shard_notation_at(s@, p, i, k) by {
            if 0 <= i < s@.len() {
                assert(s@[i] == habits_root()[i]);
            }
        }
    }
    hdk_path_of(s)
}

} // verus!
