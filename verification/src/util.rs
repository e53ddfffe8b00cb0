use vstd::prelude::*;
use vstd::string::*;
use vstd::utf8::encode_utf8;

use crate::decimal::{lemma_decimal_reads_back, push_decimal, spec_decimal, spec_is_digit};

verus! {

/// The path of `name` inside the directory `base`. A name that begins at the
/// root stands for itself; otherwise the name follows the directory, after a
/// separator unless the directory is empty or ends in one.
pub open spec fn spec_join_path(base: Seq<char>, name: Seq<char>) -> Seq<char> {
    if name.len() > 0 && name[0] == '/' {
        name
    } else if base.len() == 0 || base.last() == '/' {
        base + name
    } else {
        base + seq!['/'] + name
    }
}

/// The path of `name` inside the directory `base`.
pub fn join_path(base: &str, name: &str) -> (path: String)
    ensures
        path@ == spec_join_path(base@, name@),
{
    let name_len = name.unicode_len();
    if name_len > 0 && name.get_char(0) == '/' {
        return String::from_str(name);
    }
    let base_len = base.unicode_len();
    let mut path = String::from_str(base);
    if base_len > 0 && base.get_char(base_len - 1) != '/' {
        proof {
            reveal_strlit("/");
        }
        path.append("/");
        assert(path@ =~= base@ + seq!['/']);
    }
    path.append(name);
    path
}

/// Whether a character can stand in the text of a random identifier: a
/// lower-case hexadecimal digit or a hyphen.
pub open spec fn spec_is_id_char(c: char) -> bool {
    c == '-' || ('0' <= c && c <= '9') || ('a' <= c && c <= 'f')
}

/// Whether a text has the form of a random identifier: thirty-six lower-case
/// hexadecimal digits and hyphens.
pub open spec fn spec_is_id(text: Seq<char>) -> bool {
    text.len() == 36 && forall|i: int| 0 <= i < text.len() ==> spec_is_id_char(#[trigger] text[i])
}

/// Calls `Uuid::new_v4` of the uuid crate and formats the identifier, which
/// gives the hyphenated lower-case form: thirty-six characters, each a
/// hexadecimal digit or a hyphen. Which identifier comes out is left to
/// chance.
#[verifier::external_body]
fn random_id() -> (id: String)
    ensures
        spec_is_id(id@),
{
    uuid::Uuid::new_v4().to_string()
}

/// The path that the identifier `id` names inside the directory `temp_dir`.
pub fn unique_path_for(temp_dir: &str, id: &str) -> (path: String)
    ensures
        path@ == spec_join_path(temp_dir@, id@),
{
    join_path(temp_dir, id)
}

/// A path inside the directory `temp_dir` that no earlier call has handed
/// out, but for chance: its last component is a fresh random identifier.
pub fn generate_unique_path(temp_dir: &str) -> (path: String)
    ensures
        exists|id: Seq<char>| spec_is_id(id) && path@ == #[trigger] spec_join_path(temp_dir@, id),
{
    let id = random_id();
    unique_path_for(temp_dir, id.as_str())
}

/// The path of a random identifier lies inside the directory: it is the
/// directory, a separator where the directory lacks one, and the identifier.
pub proof fn lemma_unique_path_inside(temp_dir: Seq<char>, id: Seq<char>)
    requires
        spec_is_id(id),
    ensures
        spec_join_path(temp_dir, id).len() >= temp_dir.len() + 36,
        spec_join_path(temp_dir, id).subrange(0, temp_dir.len() as int) == temp_dir,
        spec_join_path(temp_dir, id).subrange(
            spec_join_path(temp_dir, id).len() - 36,
            spec_join_path(temp_dir, id).len() as int,
        ) == id,
{
    assert(spec_is_id_char(id[0]));
    let path = spec_join_path(temp_dir, id);
    assert(path.subrange(0, temp_dir.len() as int) =~= temp_dir);
    assert(path.subrange(path.len() - 36, path.len() as int) =~= id);
}

/// Two random identifiers name the same path inside a directory only where
/// they are the same identifier: executions with different identifiers have
/// different project directories.
pub proof fn lemma_unique_paths_differ(temp_dir: Seq<char>, id_a: Seq<char>, id_b: Seq<char>)
    requires
        spec_is_id(id_a),
        spec_is_id(id_b),
        spec_join_path(temp_dir, id_a) == spec_join_path(temp_dir, id_b),
    ensures
        id_a == id_b,
{
    lemma_unique_path_inside(temp_dir, id_a);
    lemma_unique_path_inside(temp_dir, id_b);
}

/// The hash of no bytes.
pub const HASH_OFFSET: u64 = 0xcbf2_9ce4_8422_2325;

/// What a hash is multiplied by after each byte.
pub const HASH_PRIME: u64 = 0x0000_0100_0000_01b3;

/// The hash after one more byte: the byte is mixed into the low bits, and
/// the product with the prime is cut to sixty-four bits.
pub open spec fn spec_hash_step(hash: u64, byte: u8) -> u64 {
    (((hash ^ (byte as u64)) as int * HASH_PRIME as int) % 0x1_0000_0000_0000_0000) as u64
}

/// The hash of a sequence of bytes, taken byte by byte from the first.
pub open spec fn spec_hash(bytes: Seq<u8>) -> u64
    decreases bytes.len(),
{
    if bytes.len() == 0 {
        HASH_OFFSET
    } else {
        spec_hash_step(spec_hash(bytes.drop_last()), bytes.last())
    }
}

/// The name of a file that takes output for the input at `input_path`: the
/// hash of that path as a decimal numeral, and a suffix.
pub open spec fn spec_sink_name(input_path: Seq<char>, suffix: Seq<char>) -> Seq<char> {
    spec_decimal(spec_hash(encode_utf8(input_path)) as nat) + suffix
}

/// The file inside the project directory that takes the standard output of
/// the run on the input at `input_path`.
pub open spec fn spec_output_path(project_path: Seq<char>, input_path: Seq<char>) -> Seq<char> {
    spec_join_path(project_path, spec_sink_name(input_path, ".out"@))
}

/// The file inside the project directory that takes the standard error of
/// the run on the input at `input_path`.
pub open spec fn spec_error_path(project_path: Seq<char>, input_path: Seq<char>) -> Seq<char> {
    spec_join_path(project_path, spec_sink_name(input_path, ".err"@))
}

fn hash_step(hash: u64, byte: u8) -> (next: u64)
    ensures
        next == spec_hash_step(hash, byte),
{
    let mixed: u64 = hash ^ (byte as u64);
    assert(mixed as int * HASH_PRIME as int <= 0xffff_ffff_ffff_ffff * 0x0000_0100_0000_01b3)
        by (nonlinear_arith)
        requires
            0 <= mixed as int <= 0xffff_ffff_ffff_ffff,
            HASH_PRIME as int == 0x0000_0100_0000_01b3,
    ;
    let wide: u128 = (mixed as u128) * (HASH_PRIME as u128);
    (wide % 0x1_0000_0000_0000_0000u128) as u64
}

/// The hash of a path, taken over the bytes that encode it.
pub fn path_hash(path: &str) -> (hash: u64)
    ensures
        hash == spec_hash(encode_utf8(path@)),
{
    let bytes = path.as_bytes();
    let mut hash: u64 = HASH_OFFSET;
    let mut at: usize = 0;
    while at < bytes.len()
        invariant
            at <= bytes@.len(),
            bytes@ == encode_utf8(path@),
            hash == spec_hash(bytes@.take(at as int)),
        decreases bytes@.len() - at,
    {
        hash = hash_step(hash, bytes[at]);
        at = at + 1;
        assert(bytes@.take(at as int).drop_last() =~= bytes@.take(at - 1));
    }
    assert(bytes@.take(at as int) =~= bytes@);
    hash
}

fn sink_path(project_path: &str, input_path: &str, suffix: &str) -> (path: String)
    ensures
        path@ == spec_join_path(project_path@, spec_sink_name(input_path@, suffix@)),
{
    let mut name = String::new();
    push_decimal(&mut name, path_hash(input_path));
    name.append(suffix);
    assert(name@ =~= spec_sink_name(input_path@, suffix@));
    join_path(project_path, name.as_str())
}

/// The file inside the project directory that takes the standard output of
/// the run on the input at `input_path`.
pub fn output_path(project_path: &str, input_path: &str) -> (path: String)
    ensures
        path@ == spec_output_path(project_path@, input_path@),
{
    sink_path(project_path, input_path, ".out")
}

/// The file inside the project directory that takes the standard error of
/// the run on the input at `input_path`.
pub fn error_path(project_path: &str, input_path: &str) -> (path: String)
    ensures
        path@ == spec_error_path(project_path@, input_path@),
{
    sink_path(project_path, input_path, ".err")
}

/// The two files of one run are never the same file: standard output and
/// standard error of a run cannot overwrite each other.
pub proof fn lemma_sinks_differ(project_path: Seq<char>, input_path: Seq<char>)
    ensures
        spec_output_path(project_path, input_path) != spec_error_path(project_path, input_path),
{
    reveal_strlit(".out");
    reveal_strlit(".err");
    let digits = spec_decimal(spec_hash(encode_utf8(input_path)) as nat);
    lemma_decimal_reads_back(spec_hash(encode_utf8(input_path)) as nat);
    let output = spec_sink_name(input_path, ".out"@);
    let error = spec_sink_name(input_path, ".err"@);
    assert(spec_is_digit(digits[0]));
    assert(output[0] == digits[0] && error[0] == digits[0]);
    assert(output.len() == digits.len() + 4 && error.len() == digits.len() + 4);
    assert(output.last() == 't' && error.last() == 'r');
    let out_path = spec_output_path(project_path, input_path);
    let err_path = spec_error_path(project_path, input_path);
    assert(out_path.last() == output.last());
    assert(err_path.last() == error.last());
}

} // verus!
