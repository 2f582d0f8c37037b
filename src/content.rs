//! What goes into a created entry: file contents and random names.
use vstd::prelude::*;

verus! {

/// What `create` makes at a path.
#[derive(PartialEq, Eq, Structural, Debug, Clone, Copy)]
pub enum FileType {
    /// An empty file.
    EmptyFile,
    /// A file of the given size with random content.
    RandomFile(usize),
    /// A file of the given size made of the character `0`.
    ZeroFile(usize),
    /// A directory.
    Dir,
}

/// The byte of the ASCII character `0`.
pub const ZERO_BYTE: u8 = 0x30;

/// Length of a random directory name.
pub const NAME_LEN: usize = 8;

/// An ASCII letter or digit.
pub open spec fn is_alphanumeric(c: char) -> bool {
    ('a' <= c && c <= 'z') || ('A' <= c && c <= 'Z') || ('0' <= c && c <= '9')
}

/// A name made of `NAME_LEN` ASCII letters and digits.
pub open spec fn is_random_name(s: Seq<char>) -> bool {
    s.len() == NAME_LEN && forall|i: int| 0 <= i < s.len() ==> is_alphanumeric(#[trigger] s[i])
}

/// `n` bytes, each the character `0`.
pub open spec fn zeros(n: nat) -> Seq<u8> {
    Seq::new(n, |i: int| ZERO_BYTE)
}

/// `b` is a valid content for a file of type `ft`: nothing for an empty file,
/// `n` zero characters for `ZeroFile(n)`, any `n` bytes for `RandomFile(n)`.
/// A directory has no content.
pub open spec fn is_content_of(ft: FileType, b: Seq<u8>) -> bool {
    match ft {
        FileType::EmptyFile => b.len() == 0,
        FileType::ZeroFile(n) => b == zeros(n as nat),
        FileType::RandomFile(n) => b.len() == n,
        FileType::Dir => b.len() == 0,
    }
}

/// Relies on rand's `Alphanumeric` distribution, sampled with `thread_rng`:
/// one character drawn from `A-Z`, `a-z` and `0-9`.
#[verifier::external_body]
fn random_alphanumeric() -> (c: char)
    ensures
        is_alphanumeric(c),
{
    rand::Rng::sample(&mut rand::thread_rng(), rand::distributions::Alphanumeric)
}

/// Relies on `String::push`: the character is appended at the end.
#[verifier::external_body]
fn push_char(s: &mut String, c: char)
    ensures
        final(s)@ == old(s)@.push(c),
{
    s.push(c)
}

/// Relies on rand's `Rng::gen` with `thread_rng`: a byte drawn uniformly.
#[verifier::external_body]
fn random_byte() -> (r: u8) {
    rand::Rng::gen::<u8>(&mut rand::thread_rng())
}

/// The name spelled by the drawn characters `draws`, in order.
pub fn name_from(draws: &Vec<char>) -> (r: String)
    ensures
        r@ == draws@,
{
    let mut name = String::new();
    let mut i: usize = 0;
    while i < draws.len()
        invariant
            i <= draws.len(),
            name@ == draws@.subrange(0, i as int),
        decreases draws.len() - i,
    {
        push_char(&mut name, draws[i]);
        i = i + 1;
        assert(name@ =~= draws@.subrange(0, i as int));
    }
    assert(name@ =~= draws@);
    name
}

/// A fresh name of `NAME_LEN` letters and digits, each drawn at random.
pub fn random_name() -> (r: String)
    ensures
        is_random_name(r@),
{
    let mut draws: Vec<char> = Vec::new();
    let mut i: usize = 0;
    while i < NAME_LEN
        invariant
            i <= NAME_LEN,
            draws@.len() == i,
            forall|j: int| 0 <= j < i ==> is_alphanumeric(#[trigger] draws@[j]),
        decreases NAME_LEN - i,
    {
        draws.push(random_alphanumeric());
        i = i + 1;
    }
    name_from(&draws)
}

/// `n` bytes of the character `0`.
pub fn zero_bytes(n: usize) -> (r: Vec<u8>)
    ensures
        r@ == zeros(n as nat),
{
    let mut v: Vec<u8> = Vec::new();
    let mut i: usize = 0;
    while i < n
        invariant
            i <= n,
            v@ == zeros(i as nat),
        decreases n - i,
    {
        v.push(ZERO_BYTE);
        i = i + 1;
        assert(v@ =~= zeros(i as nat));
    }
    v
}

/// `n` random bytes.
pub fn random_bytes(n: usize) -> (r: Vec<u8>)
    ensures
        r@.len() == n,
{
    let mut v: Vec<u8> = Vec::new();
    let mut i: usize = 0;
    while i < n
        invariant
            i <= n,
            v@.len() == i,
        decreases n - i,
    {
        v.push(random_byte());
        i = i + 1;
    }
    v
}

/// The bytes to write for a file of type `ft`.
pub fn content(ft: FileType) -> (r: Vec<u8>)
    ensures
        is_content_of(ft, r@),
{
    match ft {
        FileType::EmptyFile => Vec::new(),
        FileType::RandomFile(n) => random_bytes(n),
        FileType::ZeroFile(n) => zero_bytes(n),
        FileType::Dir => Vec::new(),
    }
}

} // verus!
