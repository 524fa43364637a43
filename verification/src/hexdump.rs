//! The text in which a frame is shown to a person: upper-case hexadecimal
//! digits, in groups of two bytes.

use itertools::Itertools;
use vstd::prelude::*;
use vstd::slice::slice_subrange;

verus! {

/// The sixteen hexadecimal digits, letters in upper case.
pub open spec fn upper_digits() -> Seq<char> {
    seq!['0', '1', '2', '3', '4', '5', '6', '7', '8', '9', 'A', 'B', 'C', 'D', 'E', 'F']
}

/// The hexadecimal text of `bytes`: two digits for each byte, the high half
/// first.
pub open spec fn hex_upper(bytes: Seq<u8>) -> Seq<char> {
    Seq::new(
        2 * bytes.len(),
        |i: int|
            if i % 2 == 0 {
                upper_digits()[bytes[i / 2] as int / 16]
            } else {
                upper_digits()[bytes[i / 2] as int % 16]
            },
    )
}

/// The texts of `parts` one after the other, with `sep` between each two.
pub open spec fn joined(parts: Seq<Seq<char>>, sep: Seq<char>) -> Seq<char>
    decreases parts.len(),
{
    if parts.len() == 0 {
        Seq::empty()
    } else if parts.len() == 1 {
        parts[0]
    } else {
        joined(parts.drop_last(), sep) + sep + parts.last()
    }
}

/// The number of groups in the dump of `len` bytes.
pub open spec fn group_count(len: nat) -> nat {
    (len + 1) / 2
}

/// The `k`-th group of `bytes`: two bytes, or the one byte that is left at
/// the end of an odd number of them.
pub open spec fn group(bytes: Seq<u8>, k: int) -> Seq<u8> {
    bytes.subrange(2 * k, if 2 * k + 2 <= bytes.len() { 2 * k + 2 } else { bytes.len() as int })
}

/// The hexadecimal texts of the groups of `bytes`, in order.
pub open spec fn hex_groups(bytes: Seq<u8>) -> Seq<Seq<char>> {
    Seq::new(group_count(bytes.len()), |k: int| hex_upper(group(bytes, k)))
}

/// The dump of `bytes`: the hexadecimal texts of its groups with one space
/// between each two.
pub open spec fn dump_text(bytes: Seq<u8>) -> Seq<char> {
    joined(hex_groups(bytes), seq![' '])
}

/// The texts that a list of strings holds.
pub open spec fn texts(parts: Seq<String>) -> Seq<Seq<char>> {
    parts.map_values(|p: String| p@)
}

/// `hex::encode_upper`: the bytes as hexadecimal text, two digits from
/// `0123456789ABCDEF` for each byte, the high half first.
#[verifier::external_body]
fn encode_upper(data: &[u8]) -> (text: String)
    ensures
        text@ == hex_upper(data@),
{
    hex::encode_upper(data)
}

/// `Itertools::join` on the strings of a list: the first string, then for
/// each further one the separator and the string. The separator is short,
/// so that the size the function reserves cannot overflow.
#[verifier::external_body]
fn join(parts: &Vec<String>, sep: &str) -> (text: String)
    requires
        sep@.len() <= 8,
    ensures
        text@ == joined(texts(parts@), sep@),
{
    parts.iter().join(sep)
}

/// Returns the dump of `bytes`: each group of two bytes as four upper-case
/// hexadecimal digits, a last single byte as two, and one space between
/// groups.
pub fn hex_dump(bytes: &[u8]) -> (text: String)
    ensures
        text@ == dump_text(bytes@),
{
    let mut parts: Vec<String> = Vec::new();
    let mut i: usize = 0;
    while i < bytes.len()
        invariant
            i <= bytes.len(),
            i == bytes.len() || i == 2 * parts.len(),
            parts.len() == group_count(i as nat),
            forall|k: int| 0 <= k < parts.len() ==> (#[trigger] parts[k])@ == hex_groups(bytes@)[k],
        decreases bytes.len() - i,
    {
        let end: usize = if bytes.len() - i >= 2 {
            i + 2
        } else {
            bytes.len()
        };
        let chunk = slice_subrange(bytes, i, end);
        let part: String = encode_upper(chunk);
        parts.push(part);
        i = end;
    }
    proof {
        reveal_strlit(" ");
        assert(" "@ =~= seq![' ']);
        assert(texts(parts@) =~= hex_groups(bytes@));
    }
    join(&parts, " ")
}

} // verus!
