use vstd::prelude::*;
use vstd::string::StringSliceAdditionalSpecFns;

verus! {

/// The ASCII bytes Unicode counts as whitespace: tab through carriage
/// return, and the space itself.
pub open spec fn is_ascii_space_byte(b: u8) -> bool {
    b == 32 || (9 <= b <= 13)
}

/// An operator-supplied node name is acceptable when it is pure ASCII and
/// does not trim away to nothing: some byte of it is not whitespace.
pub fn is_valid_node_name(node_name: &str) -> (r: bool)
    ensures
        r == (vstd::string::is_ascii(node_name) && exists|i: int|
            0 <= i < node_name.spec_bytes().len() && !is_ascii_space_byte(
                #[trigger] node_name.spec_bytes()[i],
            )),
{
    if !node_name.is_ascii() {
        return false;
    }
    let bytes = node_name.as_bytes();
    let n = bytes.len();
    let mut i: usize = 0;
    while i < n
        invariant
            vstd::string::is_ascii(node_name),
            n == bytes@.len(),
            bytes@ == node_name.spec_bytes(),
            0 <= i <= n,
            forall|j: int| 0 <= j < i ==> is_ascii_space_byte(#[trigger] bytes@[j]),
        decreases n - i,
    {
        let b = bytes[i];
        if !(b == 32 || (9 <= b && b <= 13)) {
            proof {
                assert(!is_ascii_space_byte(node_name.spec_bytes()[i as int]));
            }
            return true;
        }
        i = i + 1;
    }
    false
}

/// Whether two byte strings are equal, byte for byte.
pub fn bytes_eq(a: &[u8], b: &[u8]) -> (r: bool)
    ensures
        r == (a@ == b@),
{
    let n = a.len();
    if n != b.len() {
        proof {
            assert(a@.len() != b@.len());
        }
        return false;
    }
    let mut i: usize = 0;
    while i < n
        invariant
            n == a@.len(),
            n == b@.len(),
            0 <= i <= n,
            forall|j: int| 0 <= j < i ==> a@[j] == b@[j],
        decreases n - i,
    {
        if a[i] != b[i] {
            return false;
        }
        i = i + 1;
    }
    proof {
        assert(a@ =~= b@);
    }
    true
}

/// The chains this supervisor knows how to farm on: the current test network
/// and the local development chain.
pub fn is_valid_chain(chain: &str) -> (r: bool)
    ensures
        r == (chain.spec_bytes() == "gemini-2a".spec_bytes() || chain.spec_bytes()
            == "dev".spec_bytes()),
{
    bytes_eq(chain.as_bytes(), "gemini-2a".as_bytes()) || bytes_eq(
        chain.as_bytes(),
        "dev".as_bytes(),
    )
}

/// A plot size parsed from the operator's input, as a plain count of bytes.
/// The concrete grammar ("1000", "4 GiB", "1.5 MB", ...) belongs to the
/// size-parsing collaborator; here it is only a function of the input text.
pub uninterp spec fn parsed_byte_size(s: Seq<char>) -> Option<u64>;

/// Relies on bytesize's `FromStr` for `ByteSize` (and `ByteSize::as_u64`):
/// the parse reads nothing but the input text, so its outcome is a function
/// of the string alone.
#[verifier::external_body]
fn parse_byte_size(s: &str) -> (r: Option<u64>)
    ensures
        r == parsed_byte_size(s@),
{
    match s.parse::<bytesize::ByteSize>() {
        Ok(size) => Some(size.as_u64()),
        Err(_) => None,
    }
}

/// The plot size an operator typed, in bytes, when the size parser accepts
/// the text.
pub fn plot_size_bytes(size: &str) -> (r: Option<u64>)
    ensures
        r == parsed_byte_size(size@),
{
    parse_byte_size(size)
}

/// An operator-supplied plot size is acceptable exactly when the size
/// parser accepts it.
pub fn is_valid_size(size: &str) -> (r: bool)
    ensures
        r == parsed_byte_size(size@) is Some,
{
    parse_byte_size(size).is_some()
}

} // verus!
